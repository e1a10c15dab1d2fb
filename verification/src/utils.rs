//! Hashing of hook command lists and splitting of command lines.

use crate::text::{joined, texts};
use sha1::{Digest, Sha1};
use vstd::prelude::*;
use vstd::string::*;
use vstd::utf8::encode_utf8;

verus! {

/// The SHA-1 digest of a byte string, as the `sha1` crate computes it.
pub uninterp spec fn sha1_digest(data: Seq<u8>) -> Seq<u8>;

/// The lower-case hexadecimal digit for a value below sixteen.
pub open spec fn hex_digit(nibble: int) -> char {
    if nibble == 0 {
        '0'
    } else if nibble == 1 {
        '1'
    } else if nibble == 2 {
        '2'
    } else if nibble == 3 {
        '3'
    } else if nibble == 4 {
        '4'
    } else if nibble == 5 {
        '5'
    } else if nibble == 6 {
        '6'
    } else if nibble == 7 {
        '7'
    } else if nibble == 8 {
        '8'
    } else if nibble == 9 {
        '9'
    } else if nibble == 10 {
        'a'
    } else if nibble == 11 {
        'b'
    } else if nibble == 12 {
        'c'
    } else if nibble == 13 {
        'd'
    } else if nibble == 14 {
        'e'
    } else {
        'f'
    }
}

/// Lower-case hexadecimal text of a byte string: two digits per byte, the
/// high half first.
pub open spec fn hex_lower(bytes: Seq<u8>) -> Seq<char> {
    Seq::new(
        2 * bytes.len(),
        |i: int|
            if i % 2 == 0 {
                hex_digit(bytes[i / 2] as int / 16)
            } else {
                hex_digit(bytes[i / 2] as int % 16)
            },
    )
}

/// The bytes of a command list: the UTF-8 encodings of the commands, one
/// after the other with nothing in between.
pub open spec fn command_bytes(commands: Seq<Seq<char>>) -> Seq<u8>
    decreases commands.len(),
{
    if commands.len() == 0 {
        Seq::empty()
    } else {
        command_bytes(commands.drop_last()) + encode_utf8(commands.last())
    }
}

/// The hash of a command list: forty hexadecimal digits.
pub open spec fn command_hash(commands: Seq<Seq<char>>) -> Seq<char> {
    hex_lower(sha1_digest(command_bytes(commands)))
}

/// Calls `sha1::Sha1::digest`. Trusted: the result is the SHA-1 digest of
/// `data`, which is twenty bytes long.
#[verifier::external_body]
pub(crate) fn sha1(data: &[u8]) -> (digest: Vec<u8>)
    ensures
        digest@ == sha1_digest(data@),
        digest@.len() == 20,
{
    Sha1::digest(data).to_vec()
}

/// Calls `hex::encode`. Trusted: the result holds two lower-case
/// hexadecimal digits for each byte, in order, the high half first.
#[verifier::external_body]
pub(crate) fn hex_encode(bytes: &[u8]) -> (text: String)
    ensures
        text@ == hex_lower(bytes@),
{
    hex::encode(bytes)
}

/// Hashes a list of shell commands: SHA-1 over their concatenated bytes, in
/// hexadecimal.
pub fn hash_command_vec(command_vec: &[String]) -> (hash: String)
    ensures
        hash@ == command_hash(texts(command_vec@)),
        hash@.len() == 40,
{
    let mut bytes: Vec<u8> = Vec::new();
    let mut i: usize = 0;
    while i < command_vec.len()
        invariant
            i <= command_vec@.len(),
            bytes@ == command_bytes(texts(command_vec@).take(i as int)),
        decreases command_vec@.len() - i,
    {
        let command: &[u8] = command_vec[i].as_str().as_bytes();
        bytes.extend_from_slice(command);
        proof {
            let all = texts(command_vec@);
            assert(all.take(i + 1).drop_last() == all.take(i as int));
            assert(all.take(i + 1).last() == command_vec@[i as int]@);
        }
        i += 1;
    }
    proof {
        assert(texts(command_vec@).take(i as int) == texts(command_vec@));
    }
    let digest = sha1(bytes.as_slice());
    hex_encode(digest.as_slice())
}

/// The text holds no space.
pub open spec fn spaceless(text: Seq<char>) -> bool {
    forall|i: int| 0 <= i < text.len() ==> text[i] != ' '
}

/// `parts` are the words of `command`: joined with single spaces they give
/// `command` back, and none of them holds a space. A command without a
/// space is one word, and two spaces in a row have an empty word between
/// them.
pub open spec fn is_split(command: Seq<char>, parts: Seq<Seq<char>>) -> bool {
    &&& parts.len() >= 1
    &&& joined(parts, seq![' ']) == command
    &&& forall|i: int| 0 <= i < parts.len() ==> spaceless(#[trigger] parts[i])
}

/// Joining with one more part.
proof fn lemma_joined_push(parts: Seq<Seq<char>>, last: Seq<char>, separator: Seq<char>)
    ensures
        joined(parts.push(last), separator) == if parts.len() == 0 {
            last
        } else {
            joined(parts, separator) + separator + last
        },
{
    assert(parts.push(last).drop_last() == parts);
}

/// Splits a command line at every space into the program and its
/// arguments.
pub fn split_command(command: &str) -> (parts: Vec<String>)
    ensures
        is_split(command@, texts(parts@)),
{
    let length = command.unicode_len();
    let mut parts: Vec<String> = Vec::new();
    let mut start: usize = 0;
    let mut i: usize = 0;
    proof {
        lemma_joined_push(texts(parts@), command@.subrange(0, 0), seq![' ']);
        assert(command@.subrange(0, 0) =~= command@.take(0));
    }
    while i < length
        invariant
            start <= i <= length,
            length == command@.len(),
            spaceless(command@.subrange(start as int, i as int)),
            forall|k: int| 0 <= k < parts@.len() ==> spaceless(#[trigger] texts(parts@)[k]),
            joined(texts(parts@).push(command@.subrange(start as int, i as int)), seq![' '])
                == command@.take(i as int),
        decreases length - i,
    {
        let ghost words = texts(parts@);
        let ghost word = command@.subrange(start as int, i as int);
        proof {
            lemma_joined_push(words, word, seq![' ']);
        }
        if command.get_char(i) == ' ' {
            parts.push(String::from_str(command.substring_char(start, i)));
            start = i + 1;
            proof {
                let empty = command@.subrange(i + 1, i + 1);
                assert(texts(parts@) =~= words.push(word));
                lemma_joined_push(words.push(word), empty, seq![' ']);
                assert(empty =~= Seq::<char>::empty());
                assert(command@.take(i + 1) =~= command@.take(i as int) + seq![' '] + empty);
            }
        } else {
            proof {
                let longer = command@.subrange(start as int, i + 1);
                assert(longer =~= word.push(command@[i as int]));
                lemma_joined_push(words, longer, seq![' ']);
                assert(command@.take(i + 1) =~= command@.take(i as int).push(command@[i as int]));
                if words.len() == 0 {
                    assert(word == command@.take(i as int));
                } else {
                    assert(joined(words, seq![' ']) + seq![' '] + longer =~= (joined(
                        words,
                        seq![' '],
                    ) + seq![' '] + word).push(command@[i as int]));
                }
            }
        }
        i += 1;
    }
    let ghost words = texts(parts@);
    parts.push(String::from_str(command.substring_char(start, length)));
    proof {
        assert(texts(parts@) =~= words.push(command@.subrange(start as int, length as int)));
        assert(command@.take(length as int) =~= command@);
    }
    parts
}

/// Two byte strings have the same hexadecimal text only if they are the
/// same.
pub proof fn lemma_hex_lower_injective(a: Seq<u8>, b: Seq<u8>)
    requires
        hex_lower(a) == hex_lower(b),
    ensures
        a == b,
{
    assert(hex_lower(a).len() == 2 * a.len());
    assert(hex_lower(b).len() == 2 * b.len());
    assert forall|i: int| 0 <= i < a.len() implies a[i] == b[i] by {
        let x = a[i] as int;
        let y = b[i] as int;
        assert((2 * i) % 2 == 0 && (2 * i) / 2 == i);
        assert((2 * i + 1) % 2 == 1 && (2 * i + 1) / 2 == i);
        assert(hex_lower(a)[2 * i] == hex_digit(x / 16));
        assert(hex_lower(b)[2 * i] == hex_digit(y / 16));
        assert(hex_lower(a)[2 * i + 1] == hex_digit(x % 16));
        assert(hex_lower(b)[2 * i + 1] == hex_digit(y % 16));
        assert(hex_digit(x / 16) == hex_digit(y / 16));
        assert(hex_digit(x % 16) == hex_digit(y % 16));
        assert(x / 16 == y / 16);
        assert(x % 16 == y % 16);
    }
    assert(a =~= b);
}

/// The hash of a command list is a function of the list: the same
/// commands in the same order always hash alike. Two lists hash alike
/// exactly if the SHA-1 digests of their concatenated bytes agree, so a
/// changed command or a changed order changes the hash unless the digests
/// collide.
pub proof fn lemma_command_hash_follows_digest(a: Seq<Seq<char>>, b: Seq<Seq<char>>)
    ensures
        a == b ==> command_hash(a) == command_hash(b),
        command_hash(a) == command_hash(b) <==> sha1_digest(command_bytes(a)) == sha1_digest(
            command_bytes(b),
        ),
{
    if command_hash(a) == command_hash(b) {
        lemma_hex_lower_injective(sha1_digest(command_bytes(a)), sha1_digest(command_bytes(b)));
    }
}

} // verus!
