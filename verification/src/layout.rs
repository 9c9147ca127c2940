//! The layout of a game installation: which files it must hold, where they
//! lie below the game's root directory, and which of them the unpacker keeps.

use vstd::prelude::*;
use crate::error::UnpackError;

verus! {

/// The files that an installation must hold, in the order in which they are
/// looked for.
#[derive(Clone, Copy, Debug, PartialEq, Eq)]
pub enum GameFile {
    /// `guigubahuang.exe`, the game itself.
    GameExe,
    /// `GameAssembly.dll`, the module that carries the cipher key.
    GameAssemblyDll,
    /// `global-metadata.dat`, the metadata file that is replaced.
    GlobalMetadata,
    /// `resources.resource.resdata`, the encrypted metadata.
    EncryptedMetadata,
}

impl GameFile {
    /// The path of the file below the game's root directory, as the segments
    /// to join to the root one after the other.
    pub open spec fn segments(self) -> Seq<Seq<char>> {
        match self {
            GameFile::GameExe => seq!["guigubahuang.exe"@],
            GameFile::GameAssemblyDll => seq!["GameAssembly.dll"@],
            GameFile::GlobalMetadata => seq![
                "guigubahuang_Data"@,
                "il2cpp_data/Metadata/global-metadata.dat"@,
            ],
            GameFile::EncryptedMetadata => seq![
                "guigubahuang_Data"@,
                "resources.resource.resdata"@,
            ],
        }
    }

    /// The segments to join to the game's root directory, in order, to reach
    /// the file.
    pub fn relative_path(self) -> (path: Vec<&'static str>)
        ensures
            path@.len() == self.segments().len(),
            forall|i: int| 0 <= i < path@.len() ==> path@[i]@ == self.segments()[i],
    {
        let mut path: Vec<&'static str> = Vec::new();
        match self {
            GameFile::GameExe => {
                path.push("guigubahuang.exe");
            },
            GameFile::GameAssemblyDll => {
                path.push("GameAssembly.dll");
            },
            GameFile::GlobalMetadata => {
                path.push("guigubahuang_Data");
                path.push("il2cpp_data/Metadata/global-metadata.dat");
            },
            GameFile::EncryptedMetadata => {
                path.push("guigubahuang_Data");
                path.push("resources.resource.resdata");
            },
        }
        path
    }
}

/// What a look at the filesystem found at one path. `P` is whatever the
/// caller names paths with; the library only hands it on.
#[derive(Clone, Debug, PartialEq, Eq)]
pub struct FileProbe<P> {
    /// The path that was looked at.
    pub path: P,
    /// Whether anything is there.
    pub exists: bool,
    /// Whether what is there is a regular file.
    pub is_file: bool,
}

/// What was found at the place of each file of an installation.
#[derive(Clone, Debug, PartialEq, Eq)]
pub struct Installation<P> {
    pub game_exe: FileProbe<P>,
    pub game_assembly_dll: FileProbe<P>,
    pub global_metadata: FileProbe<P>,
    pub encrypted_metadata: FileProbe<P>,
}

/// The files of an installation that the unpacker works on, each known to
/// be there.
#[derive(Clone, Debug, PartialEq, Eq)]
pub struct GameInfo<P> {
    /// Path to `GameAssembly.dll`.
    pub game_assembly_dll: P,
    /// Path to `global-metadata.dat`.
    pub global_metadata: P,
    /// Path to `resources.resource.resdata`.
    pub encrypted_metadata: P,
}

/// A probe counts as a file that is there when something is at the path and
/// it is a regular file.
pub open spec fn is_present<P>(f: FileProbe<P>) -> bool {
    f.exists && f.is_file
}

/// Whether the probe found a regular file.
pub fn file_exists<P>(f: &FileProbe<P>) -> (found: bool)
    ensures
        found == is_present(*f),
{
    f.exists && f.is_file
}

impl<P> Installation<P> {
    /// The first file, in the order of `GameFile`, that is not there.
    pub open spec fn first_missing(self) -> Option<GameFile> {
        if !is_present(self.game_exe) {
            Some(GameFile::GameExe)
        } else if !is_present(self.game_assembly_dll) {
            Some(GameFile::GameAssemblyDll)
        } else if !is_present(self.global_metadata) {
            Some(GameFile::GlobalMetadata)
        } else if !is_present(self.encrypted_metadata) {
            Some(GameFile::EncryptedMetadata)
        } else {
            None
        }
    }
}

impl<P> GameInfo<P> {
    /// Accepts an installation in which every file is there and keeps the
    /// three paths that the unpacker works on; otherwise names the first file
    /// that is missing.
    pub fn detect(game_root: Installation<P>) -> (r: Result<GameInfo<P>, UnpackError>)
        ensures
            match r {
                Ok(info) => {
                    &&& game_root.first_missing() is None
                    &&& info.game_assembly_dll == game_root.game_assembly_dll.path
                    &&& info.global_metadata == game_root.global_metadata.path
                    &&& info.encrypted_metadata == game_root.encrypted_metadata.path
                },
                Err(e) => {
                    &&& game_root.first_missing() matches Some(file)
                    &&& e == UnpackError::InputMissing(file)
                },
            },
    {
        if !file_exists(&game_root.game_exe) {
            return Err(UnpackError::InputMissing(GameFile::GameExe));
        }
        if !file_exists(&game_root.game_assembly_dll) {
            return Err(UnpackError::InputMissing(GameFile::GameAssemblyDll));
        }
        if !file_exists(&game_root.global_metadata) {
            return Err(UnpackError::InputMissing(GameFile::GlobalMetadata));
        }
        if !file_exists(&game_root.encrypted_metadata) {
            return Err(UnpackError::InputMissing(GameFile::EncryptedMetadata));
        }
        Ok(
            GameInfo {
                game_assembly_dll: game_root.game_assembly_dll.path,
                global_metadata: game_root.global_metadata.path,
                encrypted_metadata: game_root.encrypted_metadata.path,
            },
        )
    }
}

} // verus!
