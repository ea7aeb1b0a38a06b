//! What is said to the target host and to the operator: the shell commands
//! issued over the session, the question asked before a directory is
//! created, and how the answer to it is read.

use vstd::prelude::*;

verus! {

/// Permission bits that every uploaded file gets.
pub const UPLOAD_MODE: i32 = 0o755;

/// The command that tests whether the directory `dir` exists.
pub open spec fn existence_test(dir: Seq<char>) -> Seq<char> {
    "test -d "@ + dir
}

/// The command that creates the directory `dir` with raised privileges,
/// feeding `password` to the privilege prompt.
pub open spec fn create_directory(password: Seq<char>, dir: Seq<char>) -> Seq<char> {
    "echo "@ + password + " | sudo -S mkdir -p "@ + dir
}

/// The command that hands the directory `dir` and all below it over to
/// `user`, with raised privileges, feeding `password` to the privilege prompt.
pub open spec fn change_owner(password: Seq<char>, user: Seq<char>, dir: Seq<char>) -> Seq<char> {
    "echo "@ + password + " | sudo -S chown -R "@ + user + ":"@ + user + " "@ + dir
}

/// The path of the public key that belongs to the private key at `key`.
pub open spec fn public_key(key: Seq<char>) -> Seq<char> {
    key + ".pub"@
}

/// The question put to the operator when the directory `dir` is missing.
pub open spec fn creation_prompt(dir: Seq<char>) -> Seq<char> {
    "Directory "@ + dir + " does not exist. Do you want to create it? (yes/no): "@
}

/// The white space that is ignored around an answer.
pub open spec fn is_blank(c: char) -> bool {
    let n = c as u32;
    (0x9 <= n <= 0xd) || n == 0x20 || n == 0x85 || n == 0xa0 || n == 0x1680 || (0x2000 <= n
        <= 0x200a) || n == 0x2028 || n == 0x2029 || n == 0x202f || n == 0x205f || n == 0x3000
}

/// Index of the first character of `s` at or after `from` that is not blank,
/// or the length of `s` where there is none.
pub open spec fn skip_blank(s: Seq<char>, from: int) -> int
    decreases s.len() - from,
{
    if from < 0 || from >= s.len() {
        s.len() as int
    } else if is_blank(s[from]) {
        skip_blank(s, from + 1)
    } else {
        from
    }
}

/// End of `s[..to]` once the blank characters at its end are taken away,
/// never below `from`.
pub open spec fn drop_blank(s: Seq<char>, from: int, to: int) -> int
    decreases to,
{
    if to <= from || to <= 0 {
        to
    } else if is_blank(s[to - 1]) {
        drop_blank(s, from, to - 1)
    } else {
        to
    }
}

/// `s` without the white space at its start and at its end.
pub open spec fn trimmed(s: Seq<char>) -> Seq<char> {
    let start = skip_blank(s, 0);
    s.subrange(start, drop_blank(s, start, s.len() as int))
}

/// Whether `s` is the word `yes`, in any mix of upper and lower case.
pub open spec fn is_yes(s: Seq<char>) -> bool {
    &&& s.len() == 3
    &&& (s[0] == 'y' || s[0] == 'Y')
    &&& (s[1] == 'e' || s[1] == 'E')
    &&& (s[2] == 's' || s[2] == 'S')
}

/// An answer is affirmative when, white space around it aside, it is the
/// word `yes` in any mix of upper and lower case.
pub open spec fn affirmative(answer: Seq<char>) -> bool {
    is_yes(trimmed(answer))
}

/// The unit in which the size of an upload is announced.
#[derive(Debug, Clone, Copy, PartialEq, Eq, Structural)]
pub enum SizeUnit {
    Bytes,
    Kilobytes,
    Megabytes,
}

/// Up to a thousand bytes are announced in bytes, up to a million in
/// kilobytes, anything larger in megabytes.
pub open spec fn unit_of(bytes: u64) -> SizeUnit {
    if bytes <= 1000 {
        SizeUnit::Bytes
    } else if bytes <= 1000000 {
        SizeUnit::Kilobytes
    } else {
        SizeUnit::Megabytes
    }
}

/// The unit in which a size of `bytes` bytes is announced.
pub fn size_unit(bytes: u64) -> (r: SizeUnit)
    ensures
        r == unit_of(bytes),
{
    if bytes <= 1000 {
        SizeUnit::Bytes
    } else if bytes <= 1000000 {
        SizeUnit::Kilobytes
    } else {
        SizeUnit::Megabytes
    }
}

/// The command that tests whether the directory `dir` exists.
pub fn existence_test_command(dir: &str) -> (r: String)
    ensures
        r@ == existence_test(dir@),
{
    String::from_str("test -d ").concat(dir)
}

/// The command that creates the directory `dir` with raised privileges.
pub fn create_directory_command(password: &str, dir: &str) -> (r: String)
    ensures
        r@ == create_directory(password@, dir@),
{
    String::from_str("echo ").concat(password).concat(" | sudo -S mkdir -p ").concat(dir)
}

/// The command that hands the directory `dir` over to `user`.
pub fn change_owner_command(password: &str, user: &str, dir: &str) -> (r: String)
    ensures
        r@ == change_owner(password@, user@, dir@),
{
    String::from_str("echo ").concat(password).concat(" | sudo -S chown -R ").concat(user).concat(
        ":",
    ).concat(user).concat(" ").concat(dir)
}

/// The path of the public key that belongs to the private key at `key`.
pub fn public_key_path(key: &str) -> (r: String)
    ensures
        r@ == public_key(key@),
{
    String::from_str(key).concat(".pub")
}

/// The question put to the operator when the directory `dir` is missing.
pub fn confirmation_prompt(dir: &str) -> (r: String)
    ensures
        r@ == creation_prompt(dir@),
{
    String::from_str("Directory ").concat(dir).concat(
        " does not exist. Do you want to create it? (yes/no): ",
    )
}

/// Whether `c` is white space.
pub fn is_blank_char(c: char) -> (r: bool)
    ensures
        r == is_blank(c),
{
    let n: u32 = c as u32;
    (0x9 <= n && n <= 0xd) || n == 0x20 || n == 0x85 || n == 0xa0 || n == 0x1680 || (0x2000 <= n
        && n <= 0x200a) || n == 0x2028 || n == 0x2029 || n == 0x202f || n == 0x205f || n
        == 0x3000
}

/// Whether `answer` is affirmative: `yes`, in any mix of upper and lower
/// case, with any white space around it.
pub fn is_affirmative(answer: &str) -> (r: bool)
    ensures
        r == affirmative(answer@),
{
    let n = answer.unicode_len();
    let mut start: usize = 0;
    while start < n && is_blank_char(answer.get_char(start))
        invariant
            start <= n,
            n == answer@.len(),
            skip_blank(answer@, start as int) == skip_blank(answer@, 0),
        decreases n - start,
    {
        start = start + 1;
    }
    let mut end: usize = n;
    while end > start && is_blank_char(answer.get_char(end - 1))
        invariant
            start <= end <= n,
            n == answer@.len(),
            drop_blank(answer@, start as int, end as int) == drop_blank(
                answer@,
                start as int,
                n as int,
            ),
        decreases end,
    {
        end = end - 1;
    }
    if end - start != 3 {
        return false;
    }
    let y = answer.get_char(start);
    let e = answer.get_char(start + 1);
    let s = answer.get_char(start + 2);
    (y == 'y' || y == 'Y') && (e == 'e' || e == 'E') && (s == 's' || s == 'S')
}

} // verus!
