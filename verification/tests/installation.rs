use metadata_unpacker::error::UnpackError;
use metadata_unpacker::layout::{file_exists, FileProbe, GameFile, GameInfo, Installation};

fn found(path: &str) -> FileProbe<String> {
    FileProbe { path: path.to_string(), exists: true, is_file: true }
}

fn complete() -> Installation<String> {
    Installation {
        game_exe: found("/game/guigubahuang.exe"),
        game_assembly_dll: found("/game/GameAssembly.dll"),
        global_metadata: found(
            "/game/guigubahuang_Data/il2cpp_data/Metadata/global-metadata.dat",
        ),
        encrypted_metadata: found("/game/guigubahuang_Data/resources.resource.resdata"),
    }
}

#[test]
fn regular_file_exists() {
    assert!(file_exists(&found("a")));
}

#[test]
fn nothing_at_the_path_does_not_exist() {
    assert!(!file_exists(&FileProbe { path: "a", exists: false, is_file: false }));
    assert!(!file_exists(&FileProbe { path: "a", exists: false, is_file: true }));
}

#[test]
fn directory_is_no_file() {
    assert!(!file_exists(&FileProbe { path: "a", exists: true, is_file: false }));
}

#[test]
fn complete_installation_is_accepted() {
    let info = GameInfo::detect(complete()).unwrap();
    assert_eq!(info.game_assembly_dll, "/game/GameAssembly.dll");
    assert_eq!(
        info.global_metadata,
        "/game/guigubahuang_Data/il2cpp_data/Metadata/global-metadata.dat"
    );
    assert_eq!(info.encrypted_metadata, "/game/guigubahuang_Data/resources.resource.resdata");
}

#[test]
fn missing_executable_is_reported() {
    let mut game = complete();
    game.game_exe.exists = false;
    game.game_exe.is_file = false;
    assert_eq!(GameInfo::detect(game), Err(UnpackError::InputMissing(GameFile::GameExe)));
}

#[test]
fn missing_module_is_reported() {
    let mut game = complete();
    game.game_assembly_dll.is_file = false;
    assert_eq!(
        GameInfo::detect(game),
        Err(UnpackError::InputMissing(GameFile::GameAssemblyDll))
    );
}

#[test]
fn missing_metadata_is_reported() {
    let mut game = complete();
    game.global_metadata.exists = false;
    assert_eq!(GameInfo::detect(game), Err(UnpackError::InputMissing(GameFile::GlobalMetadata)));
}

#[test]
fn missing_resources_are_reported() {
    let mut game = complete();
    game.encrypted_metadata.exists = false;
    game.encrypted_metadata.is_file = false;
    assert_eq!(
        GameInfo::detect(game),
        Err(UnpackError::InputMissing(GameFile::EncryptedMetadata))
    );
}

#[test]
fn first_missing_file_is_the_one_reported() {
    let mut game = complete();
    game.encrypted_metadata.exists = false;
    game.game_assembly_dll.exists = false;
    game.global_metadata.is_file = false;
    assert_eq!(
        GameInfo::detect(game),
        Err(UnpackError::InputMissing(GameFile::GameAssemblyDll))
    );
}

#[test]
fn files_lie_where_the_game_keeps_them() {
    assert_eq!(GameFile::GameExe.relative_path(), vec!["guigubahuang.exe"]);
    assert_eq!(GameFile::GameAssemblyDll.relative_path(), vec!["GameAssembly.dll"]);
    assert_eq!(
        GameFile::GlobalMetadata.relative_path(),
        vec!["guigubahuang_Data", "il2cpp_data/Metadata/global-metadata.dat"]
    );
    assert_eq!(
        GameFile::EncryptedMetadata.relative_path(),
        vec!["guigubahuang_Data", "resources.resource.resdata"]
    );
}
