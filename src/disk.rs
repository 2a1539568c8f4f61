//! The disk shadow store's naming: each key has one file under the cache
//! directory, named by the decimal xxh3 hash of the key's UTF-8 bytes.

use vstd::prelude::*;
use vstd::string::{StrSliceExecFns, StringExecFns};
use vstd::utf8::encode_utf8;

verus! {

/// The 64-bit xxh3 hash (seed 0, default secret) of `data`.
pub uninterp spec fn xxh3_64_of(data: Seq<u8>) -> u64;

/// Relies on `xxhash_rust::xxh3::xxh3_64`: a function of the input bytes alone.
pub assume_specification[ xxhash_rust::xxh3::xxh3_64 ](input: &[u8]) -> (r: u64)
    ensures
        r == xxh3_64_of(input@),
;

/// The decimal digit for `d < 10`.
pub open spec fn digit(d: nat) -> char {
    seq!['0', '1', '2', '3', '4', '5', '6', '7', '8', '9'][d as int]
}

/// `n` written in decimal, without sign or leading zeros.
pub open spec fn decimal(n: nat) -> Seq<char>
    decreases n,
{
    if n < 10 {
        seq![digit(n)]
    } else {
        decimal(n / 10).push(digit(n % 10))
    }
}

/// `dir` followed by `name`, with one `/` between them unless `dir` is empty
/// or already ends in one.
pub open spec fn join_path(dir: Seq<char>, name: Seq<char>) -> Seq<char> {
    if dir.len() == 0 || dir.last() == '/' {
        dir + name
    } else {
        dir + seq!['/'] + name
    }
}

/// The file name that holds the shadow copy of `key`.
pub open spec fn file_name_for(key: Seq<char>) -> Seq<char> {
    decimal(xxh3_64_of(encode_utf8(key)) as nat)
}

/// The path of the shadow copy of `key` under `dir`.
pub open spec fn shadow_path(dir: Seq<char>, key: Seq<char>) -> Seq<char> {
    join_path(dir, file_name_for(key))
}

/// The one-character string of the decimal digit `d`.
fn digit_str(d: u64) -> (r: &'static str)
    requires
        d < 10,
    ensures
        r@ == seq![digit(d as nat)],
{
    match d {
        0 => {
            proof {
                reveal_strlit("0");
            }
            assert("0"@ =~= seq![digit(0)]);
            "0"
        },
        1 => {
            proof {
                reveal_strlit("1");
            }
            assert("1"@ =~= seq![digit(1)]);
            "1"
        },
        2 => {
            proof {
                reveal_strlit("2");
            }
            assert("2"@ =~= seq![digit(2)]);
            "2"
        },
        3 => {
            proof {
                reveal_strlit("3");
            }
            assert("3"@ =~= seq![digit(3)]);
            "3"
        },
        4 => {
            proof {
                reveal_strlit("4");
            }
            assert("4"@ =~= seq![digit(4)]);
            "4"
        },
        5 => {
            proof {
                reveal_strlit("5");
            }
            assert("5"@ =~= seq![digit(5)]);
            "5"
        },
        6 => {
            proof {
                reveal_strlit("6");
            }
            assert("6"@ =~= seq![digit(6)]);
            "6"
        },
        7 => {
            proof {
                reveal_strlit("7");
            }
            assert("7"@ =~= seq![digit(7)]);
            "7"
        },
        8 => {
            proof {
                reveal_strlit("8");
            }
            assert("8"@ =~= seq![digit(8)]);
            "8"
        },
        _ => {
            proof {
                reveal_strlit("9");
            }
            assert("9"@ =~= seq![digit(9)]);
            "9"
        },
    }
}

/// `n` in decimal, as `u64`'s `Display` writes it.
fn decimal_string(n: u64) -> (r: String)
    ensures
        r@ == decimal(n as nat),
    decreases n,
{
    if n < 10 {
        String::from_str(digit_str(n))
    } else {
        let mut s = decimal_string(n / 10);
        s.append(digit_str(n % 10));
        assert(s@ =~= decimal((n / 10) as nat).push(digit((n % 10) as nat)));
        s
    }
}

/// The path of the file that shadows `key` under the directory `dir`.
pub fn path_for(dir: &str, key: &str) -> (r: String)
    ensures
        r@ == shadow_path(dir@, key@),
{
    let name = decimal_string(xxhash_rust::xxh3::xxh3_64(key.as_bytes()));
    join_file(dir, name.as_str())
}

/// `dir` followed by the file name `name`, with one `/` between them unless
/// `dir` is empty or already ends in one.
pub fn join_file(dir: &str, name: &str) -> (r: String)
    ensures
        r@ == join_path(dir@, name@),
{
    let mut path = String::from_str(dir);
    let n: usize = dir.unicode_len();
    if n != 0 && dir.get_char(n - 1) != '/' {
        let sep = "/";
        proof {
            reveal_strlit("/");
        }
        path.append(sep);
    }
    path.append(name);
    path
}

} // verus!
