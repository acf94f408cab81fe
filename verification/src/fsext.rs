//! Paths on the SD card and the string operations on them.
use vstd::prelude::*;
use vstd::string::*;
use vstd::utf8::*;

verus! {

broadcast use vstd::seq_lib::group_seq_properties;

/// Root directory of the service's files.
pub const BASE_DIR: &'static str = "sdmc:/emulanders";

/// Directory of the flag files.
pub const FLAGS_DIR: &'static str = "sdmc:/emulanders/flags";

/// Directory of the figure dumps.
pub const SKYLANDER_DIR: &'static str = "sdmc:/emulanders/figures";

/// The byte of `.` in UTF-8.
pub const DOT: u8 = 0x2e;

/// The byte of `/` in UTF-8.
pub const SLASH: u8 = 0x2f;

/// Index of the last occurrence of byte `b` in `s`, or -1 when it does not occur.
pub open spec fn last_byte_index(s: Seq<u8>, b: u8) -> int
    decreases s.len(),
{
    if s.len() == 0 {
        -1
    } else if s.last() == b {
        s.len() - 1
    } else {
        last_byte_index(s.drop_last(), b)
    }
}

/// The UTF-8 bytes of a string.
pub open spec fn bytes_of(s: &str) -> Seq<u8> {
    s.spec_bytes()
}

/// The path without its extension: the bytes before the last `.`, or the whole path.
pub open spec fn spec_path_without_extension(path: Seq<u8>) -> Seq<u8> {
    let k = last_byte_index(path, DOT);
    if k >= 0 {
        path.subrange(0, k)
    } else {
        path
    }
}

/// The file name of a path: the bytes after the last `/`, or the whole path.
pub open spec fn spec_path_file_name(path: Seq<u8>) -> Seq<u8> {
    path.subrange(last_byte_index(path, SLASH) + 1, path.len() as int)
}

/// The path of the flag file named `name`.
pub open spec fn spec_flag_path(name: Seq<char>) -> Seq<char> {
    FLAGS_DIR@ + "/"@ + name + ".flag"@
}

proof fn lemma_last_byte_index_bounds(s: Seq<u8>, b: u8)
    ensures
        -1 <= last_byte_index(s, b) < s.len(),
        last_byte_index(s, b) >= 0 ==> s[last_byte_index(s, b)] == b,
    decreases s.len(),
{
    if s.len() > 0 && s.last() != b {
        lemma_last_byte_index_bounds(s.drop_last(), b);
    }
}

/// Index of the last occurrence of `b` in `bytes`.
fn find_last_byte(bytes: &[u8], b: u8) -> (k: Option<usize>)
    ensures
        match k {
            Some(i) => last_byte_index(bytes@, b) == i,
            None => last_byte_index(bytes@, b) == -1,
        },
{
    let n = bytes.len();
    let mut i: usize = n;
    assert(bytes@.take(n as int) =~= bytes@);
    while i > 0
        invariant
            n == bytes@.len(),
            0 <= i <= n,
            last_byte_index(bytes@, b) == last_byte_index(bytes@.take(i as int), b),
        decreases i,
    {
        let j = i - 1;
        assert(bytes@.take(i as int).drop_last() =~= bytes@.take(j as int));
        if bytes[j] == b {
            return Some(j);
        }
        i = j;
    }
    None
}

/// A byte that is not a UTF-8 continuation byte starts a character.
proof fn lemma_ascii_byte_is_char_boundary(bytes: Seq<u8>, k: int)
    requires
        valid_utf8(bytes),
        0 <= k < bytes.len(),
        bytes[k] < 0x80,
    ensures
        is_char_boundary(bytes, k),
{
    is_char_boundary_iff_not_is_continuation_byte(bytes, k);
}

/// The string whose UTF-8 bytes are `bytes` decodes them.
proof fn lemma_str_from_bytes(s: &str, bytes: Seq<u8>)
    requires
        s.spec_bytes() == bytes,
    ensures
        s@ == decode_utf8(bytes),
{
    encode_utf8_decode_utf8(s@);
}

/// The part of `path` before its last `.` (the whole path when it has none).
pub fn get_path_without_extension(path: &str) -> (res: String)
    ensures
        encode_utf8(res@) == spec_path_without_extension(bytes_of(path)),
        res@ == decode_utf8(spec_path_without_extension(bytes_of(path))),
{
    let bytes = path.as_bytes();
    proof {
        encode_utf8_valid_utf8(path@);
        lemma_last_byte_index_bounds(bytes@, DOT);
        lemma_str_from_bytes(path, bytes@);
    }
    match find_last_byte(bytes, DOT) {
        Some(offset) => {
            proof {
                lemma_ascii_byte_is_char_boundary(bytes@, offset as int);
            }
            let (head, _) = path.split_at(offset);
            proof {
                lemma_str_from_bytes(head, head.spec_bytes());
            }
            head.to_owned()
        },
        None => path.to_owned(),
    }
}

/// The part of `path` after its last `/` (the whole path when it has none).
pub fn get_path_file_name(path: &str) -> (res: String)
    ensures
        encode_utf8(res@) == spec_path_file_name(bytes_of(path)),
        res@ == decode_utf8(spec_path_file_name(bytes_of(path))),
{
    let bytes = path.as_bytes();
    proof {
        encode_utf8_valid_utf8(path@);
        lemma_last_byte_index_bounds(bytes@, SLASH);
    }
    match find_last_byte(bytes, SLASH) {
        Some(offset) => {
            proof {
                lemma_ascii_byte_is_char_boundary(bytes@, offset as int);
            }
            let (_, tail) = path.split_at(offset);
            let ghost t = tail.spec_bytes();
            proof {
                encode_utf8_valid_utf8(tail@);
                assert(t == bytes@.subrange(offset as int, bytes@.len() as int));
                assert(t[0] == SLASH);
                reveal_with_fuel(is_char_boundary, 2);
                assert(is_char_boundary(t, 1));
            }
            let (_, name) = tail.split_at(1);
            proof {
                assert(name.spec_bytes() =~= spec_path_file_name(bytes@));
                lemma_str_from_bytes(name, name.spec_bytes());
            }
            name.to_owned()
        },
        None => {
            proof {
                assert(spec_path_file_name(bytes@) =~= bytes@);
                lemma_str_from_bytes(path, bytes@);
            }
            path.to_owned()
        },
    }
}

/// The file name of `path` without its extension.
pub fn get_path_file_name_without_extension(path: String) -> (res: String)
    ensures
        encode_utf8(res@) == spec_path_file_name(spec_path_without_extension(encode_utf8(path@))),
        res@ == decode_utf8(spec_path_file_name(spec_path_without_extension(encode_utf8(path@)))),
{
    let stem = get_path_without_extension(path.as_str());
    get_path_file_name(stem.as_str())
}

/// The path of the flag file named `name`: `<FLAGS_DIR>/<name>.flag`.
pub fn make_flag_path(name: &str) -> (res: String)
    ensures
        res@ == spec_flag_path(name@),
{
    let mut p = String::from_str(FLAGS_DIR);
    p.append("/");
    p.append(name);
    p.append(".flag");
    p
}

} // verus!
