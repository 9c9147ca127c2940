//! The name under which the metadata file is kept before it is replaced:
//! its own name, the time of the backup in milliseconds since the Unix
//! epoch, and the ending `bak`, with a dot between each two.

use vstd::prelude::*;

verus! {

/// The character that writes a number below ten.
pub open spec fn digit(d: nat) -> char {
    if d == 0 {
        '0'
    } else if d == 1 {
        '1'
    } else if d == 2 {
        '2'
    } else if d == 3 {
        '3'
    } else if d == 4 {
        '4'
    } else if d == 5 {
        '5'
    } else if d == 6 {
        '6'
    } else if d == 7 {
        '7'
    } else if d == 8 {
        '8'
    } else {
        '9'
    }
}

/// A number written in decimal, without leading zeros.
pub open spec fn decimal(n: nat) -> Seq<char>
    decreases n,
{
    if n < 10 {
        seq![digit(n)]
    } else {
        decimal(n / 10).push(digit(n % 10))
    }
}

/// The name of the backup of the file named `file_name`, made `unix_millis`
/// milliseconds after the Unix epoch.
pub open spec fn backup_name(file_name: Seq<char>, unix_millis: nat) -> Seq<char> {
    file_name + seq!['.'] + decimal(unix_millis) + seq!['.', 'b', 'a', 'k']
}

/// The digits `low`, which stand lowest place first, written highest place
/// first.
pub open spec fn written(low: Seq<u8>) -> Seq<char> {
    Seq::new(low.len(), |i: int| digit(low[low.len() - 1 - i] as nat))
}

/// The text of one digit.
fn digit_str(d: u8) -> (s: &'static str)
    requires
        d < 10,
    ensures
        s@ == seq![digit(d as nat)],
{
    proof {
        reveal_strlit("0");
        reveal_strlit("1");
        reveal_strlit("2");
        reveal_strlit("3");
        reveal_strlit("4");
        reveal_strlit("5");
        reveal_strlit("6");
        reveal_strlit("7");
        reveal_strlit("8");
        reveal_strlit("9");
    }
    let s = if d == 0 {
        "0"
    } else if d == 1 {
        "1"
    } else if d == 2 {
        "2"
    } else if d == 3 {
        "3"
    } else if d == 4 {
        "4"
    } else if d == 5 {
        "5"
    } else if d == 6 {
        "6"
    } else if d == 7 {
        "7"
    } else if d == 8 {
        "8"
    } else {
        "9"
    };
    assert(s@ =~= seq![digit(d as nat)]);
    s
}

/// The decimal digits of `n`, lowest place first.
fn digits_low_first(n: u128) -> (low: Vec<u8>)
    ensures
        written(low@) == decimal(n as nat),
        forall|i: int| 0 <= i < low@.len() ==> low@[i] < 10,
{
    let mut low: Vec<u8> = Vec::new();
    let mut rest: u128 = n;
    while rest >= 10
        invariant
            decimal(n as nat) == decimal(rest as nat) + written(low@),
            forall|i: int| 0 <= i < low@.len() ==> low@[i] < 10,
        decreases rest,
    {
        let ghost before = low@;
        let d: u8 = (rest % 10) as u8;
        low.push(d);
        assert(decimal(rest as nat) + written(before) =~= decimal((rest / 10) as nat) + written(
            low@,
        ));
        rest = rest / 10;
    }
    let ghost before = low@;
    low.push(rest as u8);
    assert(decimal(rest as nat) + written(before) =~= written(low@));
    low
}

/// The name under which to keep the file named `file_name` when the backup
/// is made `unix_millis` milliseconds after the Unix epoch.
pub fn backup_file_name(file_name: &str, unix_millis: u128) -> (name: String)
    ensures
        name@ == backup_name(file_name@, unix_millis as nat),
{
    proof {
        reveal_strlit(".");
        reveal_strlit(".bak");
    }
    let low = digits_low_first(unix_millis);
    let mut name = String::from_str(file_name);
    name.append(".");
    let ghost head = name@;
    let mut i: usize = low.len();
    while i > 0
        invariant
            i <= low.len(),
            forall|j: int| 0 <= j < low@.len() ==> low@[j] < 10,
            name@ == head + written(low@).take(low.len() - i),
        decreases i,
    {
        i -= 1;
        name.append(digit_str(low[i]));
        assert(name@ =~= head + written(low@).take(low.len() - i));
    }
    assert(written(low@).take(low.len() as int) =~= written(low@));
    name.append(".bak");
    assert(name@ =~= backup_name(file_name@, unix_millis as nat));
    name
}

proof fn lemma_decimal_len(n: nat)
    ensures
        decimal(n).len() >= 1,
        n >= 10 ==> decimal(n).len() >= 2,
    decreases n,
{
    if n >= 10 {
        lemma_decimal_len(n / 10);
    }
}

proof fn lemma_decimal_is_one_to_one(a: nat, b: nat)
    requires
        decimal(a) == decimal(b),
    ensures
        a == b,
    decreases a,
{
    lemma_decimal_len(a);
    lemma_decimal_len(b);
    if a < 10 {
        assert(decimal(a)[0] == digit(a));
        assert(decimal(b)[0] == digit(b));
    } else {
        assert(decimal(a).last() == digit(a % 10));
        assert(decimal(b).last() == digit(b % 10));
        assert(decimal(a).drop_last() =~= decimal(a / 10));
        assert(decimal(b).drop_last() =~= decimal(b / 10));
        lemma_decimal_is_one_to_one(a / 10, b / 10);
    }
}

/// Backups of one file made at different times have different names, so
/// that no backup takes the place of an earlier one.
pub proof fn lemma_backup_names_differ(file_name: Seq<char>, earlier: nat, later: nat)
    requires
        earlier != later,
    ensures
        backup_name(file_name, earlier) != backup_name(file_name, later),
{
    let a = backup_name(file_name, earlier);
    let b = backup_name(file_name, later);
    if a == b {
        let head = file_name.len() + 1;
        assert(decimal(earlier).len() + head + 4 == a.len());
        assert(decimal(later).len() + head + 4 == b.len());
        assert forall|i: int| 0 <= i < decimal(earlier).len() implies decimal(earlier)[i]
            == decimal(later)[i] by {
            assert(a[head + i] == decimal(earlier)[i]);
            assert(b[head + i] == decimal(later)[i]);
        }
        assert(decimal(earlier) =~= decimal(later));
        lemma_decimal_is_one_to_one(earlier, later);
    }
}

} // verus!
