//! The text of a line: padding, line ends and their UTF-8 encoding.

use vstd::prelude::*;
use vstd::string::*;
use vstd::utf8::*;

verus! {

/// Width of the field that holds the label of a status line.
pub const STATUS_WIDTH: usize = 12;

/// `n` spaces.
pub open spec fn spaces(n: nat) -> Seq<char> {
    Seq::new(n, |i: int| ' ')
}

/// `n` space bytes.
pub open spec fn space_bytes(n: nat) -> Seq<u8> {
    Seq::new(n, |i: int| 0x20u8)
}

/// How many spaces bring a text of `len` characters to `width`.
pub open spec fn padding(len: nat, width: nat) -> nat {
    if len < width {
        (width - len) as nat
    } else {
        0
    }
}

/// `s` right-aligned in a field of at least `width` characters: spaces are
/// put in front of a shorter text, a longer one is left as it is.
pub open spec fn pad_left(s: Seq<char>, width: nat) -> Seq<char> {
    spaces(padding(s.len(), width)) + s
}

/// The label of a status line, in its field.
pub open spec fn status_label(status: Seq<char>) -> Seq<char> {
    pad_left(status, STATUS_WIDTH as nat)
}

/// What follows the label of a status line: one space, the message, one
/// newline.
pub open spec fn status_tail(message: Seq<char>) -> Seq<char> {
    seq![' '] + message + seq!['\n']
}

/// A whole status line.
pub open spec fn status_line(status: Seq<char>, message: Seq<char>) -> Seq<char> {
    status_label(status) + status_tail(message)
}

/// `message` followed by a newline.
pub open spec fn line(message: Seq<char>) -> Seq<char> {
    message + seq!['\n']
}

/// `message`, with a newline where one is asked for.
pub open spec fn maybe_line(message: Seq<char>, new_line: bool) -> Seq<char> {
    if new_line {
        line(message)
    } else {
        message
    }
}

/// The encoding of a concatenation is the concatenation of the encodings.
pub proof fn lemma_encode_utf8_concat(a: Seq<char>, b: Seq<char>)
    ensures
        encode_utf8(a + b) == encode_utf8(a) + encode_utf8(b),
    decreases a.len(),
{
    if a.len() == 0 {
        assert(a + b =~= b);
        assert(encode_utf8(a) =~= Seq::<u8>::empty());
        assert(encode_utf8(a) + encode_utf8(b) =~= encode_utf8(b));
    } else {
        assert((a + b).drop_first() =~= a.drop_first() + b);
        assert((a + b)[0] == a[0]);
        lemma_encode_utf8_concat(a.drop_first(), b);
        assert(encode_utf8(a + b) =~= encode_utf8(a) + encode_utf8(b));
    }
}

/// Spaces encode as space bytes.
pub proof fn lemma_encode_spaces(n: nat)
    ensures
        encode_utf8(spaces(n)) == space_bytes(n),
{
    let s = spaces(n);
    assert(is_ascii_chars(s));
    is_ascii_chars_encode_utf8(s);
    assert forall|i: int| 0 <= i < n implies encode_utf8(s)[i] == 0x20u8 by {
        assert(s[i] == ' ');
        assert(s[i] as u8 == encode_utf8(s)[i]);
    }
    assert(encode_utf8(s) =~= space_bytes(n));
}

/// A newline encodes as the byte 10, a space as the byte 32.
pub proof fn lemma_encode_separators()
    ensures
        encode_utf8(seq!['\n']) == seq![0x0Au8],
        encode_utf8(seq![' ']) == seq![0x20u8],
{
    let nl = seq!['\n'];
    assert(is_ascii_chars(nl));
    is_ascii_chars_encode_utf8(nl);
    assert(nl[0] as u8 == encode_utf8(nl)[0]);
    assert(encode_utf8(nl) =~= seq![0x0Au8]);
    let sp = seq![' '];
    assert(is_ascii_chars(sp));
    is_ascii_chars_encode_utf8(sp);
    assert(sp[0] as u8 == encode_utf8(sp)[0]);
    assert(encode_utf8(sp) =~= seq![0x20u8]);
}

/// The field of a label is never narrower than `width`, ends with the label
/// and holds only spaces before it.
pub proof fn lemma_pad_left_layout(s: Seq<char>, width: nat)
    ensures
        pad_left(s, width).len() == padding(s.len(), width) + s.len(),
        pad_left(s, width).len() >= width,
        s.len() <= width ==> pad_left(s, width).len() == width,
        s.len() >= width ==> pad_left(s, width) == s,
        pad_left(s, width).subrange(padding(s.len(), width) as int, pad_left(s, width).len() as int)
            == s,
        forall|i: int| 0 <= i < padding(s.len(), width) ==> pad_left(s, width)[i] == ' ',
{
    let p = padding(s.len(), width);
    assert(pad_left(s, width).subrange(p as int, pad_left(s, width).len() as int) =~= s);
    if s.len() >= width {
        assert(pad_left(s, width) =~= s);
    }
}

/// The bytes of `message` with a newline after them, in a vector.
pub fn line_bytes(message: &str, new_line: bool) -> (bytes: Vec<u8>)
    ensures
        bytes@ == encode_utf8(maybe_line(message@, new_line)),
{
    let mut bytes: Vec<u8> = message.as_bytes_vec();
    if new_line {
        bytes.push(0x0Au8);
        proof {
            lemma_encode_utf8_concat(message@, seq!['\n']);
            lemma_encode_separators();
        }
    }
    bytes
}

/// The bytes of the label of a status line: the label right-aligned in its
/// field of twelve characters.
pub fn status_label_bytes(status: &str) -> (bytes: Vec<u8>)
    ensures
        bytes@ == encode_utf8(status_label(status@)),
{
    let len: usize = status.unicode_len();
    let mut bytes: Vec<u8> = Vec::new();
    let mut written: usize = 0;
    while len < STATUS_WIDTH && written < STATUS_WIDTH - len
        invariant
            len == status@.len(),
            written as nat <= padding(len as nat, STATUS_WIDTH as nat),
            bytes@ == space_bytes(written as nat),
        decreases STATUS_WIDTH - written,
    {
        bytes.push(0x20u8);
        written = written + 1;
        assert(bytes@ =~= space_bytes(written as nat));
    }
    assert(written as nat == padding(len as nat, STATUS_WIDTH as nat));
    let mut label: Vec<u8> = status.as_bytes_vec();
    bytes.append(&mut label);
    proof {
        lemma_encode_spaces(written as nat);
        lemma_encode_utf8_concat(spaces(written as nat), status@);
    }
    bytes
}

/// The bytes of what follows the label of a status line.
pub fn status_tail_bytes(message: &str) -> (bytes: Vec<u8>)
    ensures
        bytes@ == encode_utf8(status_tail(message@)),
{
    let mut bytes: Vec<u8> = Vec::new();
    bytes.push(0x20u8);
    let mut text: Vec<u8> = message.as_bytes_vec();
    bytes.append(&mut text);
    bytes.push(0x0Au8);
    proof {
        lemma_encode_separators();
        lemma_encode_utf8_concat(seq![' '], message@);
        lemma_encode_utf8_concat(seq![' '] + message@, seq!['\n']);
        assert(bytes@ =~= seq![0x20u8] + encode_utf8(message@) + seq![0x0Au8]);
    }
    bytes
}

} // verus!
