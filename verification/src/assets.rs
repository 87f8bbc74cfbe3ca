//! Files as constants: the name under which the bytes of a file are held in
//! generated source text, and that text.

use vstd::prelude::*;
use vstd::string::StrSliceExecFns;

verus! {

/// A file to hold as a constant.
#[derive(Debug, Clone, PartialEq, Eq, Hash)]
pub struct Asset {
    /// The name of the file.
    pub original_name: String,
    /// The name of the file with `_` for what cannot stand in an identifier.
    pub name: String,
    /// The bytes of the file.
    pub data: Vec<u8>,
}

/// The upper-case form of a string, as `str::to_uppercase` gives it.
pub uninterp spec fn uppercase(s: Seq<char>) -> Seq<char>;

/// `str::to_uppercase`: the upper-case form of `s`, which depends on the
/// characters of `s` alone.
#[verifier::external_body]
fn to_uppercase(s: &str) -> (r: String)
    ensures
        r@ == uppercase(s@),
{
    s.to_uppercase()
}

/// `String::from_iter`: the string that holds the characters of `chars`, in
/// their order.
#[verifier::external_body]
fn string_of(chars: &Vec<char>) -> (r: String)
    ensures
        r@ == chars@,
{
    String::from_iter(chars.iter())
}

/// Whether a character parts the directories of a path.
pub open spec fn spec_is_separator(c: char) -> bool {
    c == '/' || c == '\\'
}

/// Computes [`spec_is_separator`].
#[verifier::when_used_as_spec(spec_is_separator)]
pub fn is_separator(c: char) -> (r: bool)
    ensures
        r == spec_is_separator(c),
{
    c == '/' || c == '\\'
}

/// Whether the file name of `path` starts at `start`: nothing from there on
/// is a separator, and `start` is the start of the path or follows one.
pub open spec fn name_starts_at(path: Seq<char>, start: int) -> bool {
    &&& 0 <= start <= path.len()
    &&& start > 0 ==> spec_is_separator(path[start - 1])
    &&& forall|i: int| start <= i < path.len() ==> !spec_is_separator(path[i])
}

/// A character of a file name as it stands in the name of a constant.
pub open spec fn spec_plain(c: char) -> char {
    if c == '.' || c == '-' || c == ' ' {
        '_'
    } else {
        c
    }
}

/// Computes [`spec_plain`].
#[verifier::when_used_as_spec(spec_plain)]
pub fn plain(c: char) -> (r: char)
    ensures
        r == spec_plain(c),
{
    if c == '.' || c == '-' || c == ' ' {
        '_'
    } else {
        c
    }
}

/// The asset for the file at `entry` with the contents `data`: it is called
/// as the last part of the path is, and its constant likewise, with `_` in
/// place of each `.`, `-` and space.
pub fn entry_parser(entry: &str, data: Vec<u8>) -> (r: Asset)
    ensures
        r.data == data,
        exists|start: int| #[trigger]
            name_starts_at(entry@, start) && r.original_name@ == entry@.skip(start) && r.name@
                == entry@.skip(start).map_values(|c: char| spec_plain(c)),
{
    let n: usize = entry.unicode_len();
    let mut start: usize = n;
    while start > 0 && !is_separator(entry.get_char(start - 1))
        invariant
            start <= n == entry@.len(),
            forall|i: int| start <= i < n ==> !spec_is_separator(entry@[i]),
        decreases start,
    {
        start = start - 1;
    }
    let mut file_name: Vec<char> = Vec::new();
    let mut name: Vec<char> = Vec::new();
    let mut i: usize = start;
    let ghost wanted = entry@.skip(start as int);
    while i < n
        invariant
            start <= i <= n == entry@.len(),
            wanted == entry@.skip(start as int),
            file_name@ == wanted.take(i - start),
            name@ == wanted.take(i - start).map_values(|c: char| spec_plain(c)),
        decreases n - i,
    {
        let c: char = entry.get_char(i);
        file_name.push(c);
        name.push(plain(c));
        proof {
            assert(wanted[i - start] == c);
            assert(file_name@ =~= wanted.take(i + 1 - start));
            assert(name@ =~= wanted.take(i + 1 - start).map_values(|c: char| spec_plain(c)));
        }
        i = i + 1;
    }
    assert(wanted.take(n - start) =~= wanted);
    assert(name_starts_at(entry@, start as int));
    Asset { original_name: string_of(&file_name), name: string_of(&name), data }
}

/// The character of a decimal digit.
pub open spec fn digit(d: nat) -> char
    recommends
        d < 10,
{
    if d == 0 {
        '0'
    } else if d == 1 {
        '1'
    } else if d == 2 {
        '2'
    } else if d == 3 {
        '3'
    } else if d == 4 {
        '4'
    } else if d == 5 {
        '5'
    } else if d == 6 {
        '6'
    } else if d == 7 {
        '7'
    } else if d == 8 {
        '8'
    } else {
        '9'
    }
}

/// A number in decimal digits, with no leading zero but for zero itself.
pub open spec fn decimal(n: nat) -> Seq<char>
    decreases n,
{
    if n < 10 {
        seq![digit(n)]
    } else {
        decimal(n / 10).push(digit(n % 10))
    }
}

/// The numbers of `data` in decimal, with a comma between each two.
pub open spec fn items(data: Seq<u8>) -> Seq<char>
    decreases data.len(),
{
    if data.len() == 0 {
        Seq::empty()
    } else if data.len() == 1 {
        decimal(data[0] as nat)
    } else {
        items(data.drop_last()) + seq![','] + decimal(data.last() as nat)
    }
}

/// The source text of the constant that holds `data` under the name
/// `constant`, for a file called `file`.
pub open spec fn const_text(file: Seq<char>, constant: Seq<char>, data: Seq<u8>) -> Seq<char> {
    "/// ORIGNAL FILE: "@ + file + "\n#[doc(hidden)]pub const "@ + constant + ": [u8;"@ + decimal(data.len())
        + "] = ["@ + items(data) + "];\n"@
}

/// Appends the decimal digits of `n`.
fn push_decimal(out: &mut Vec<char>, n: usize)
    ensures
        final(out)@ == old(out)@ + decimal(n as nat),
    decreases n,
{
    if n >= 10 {
        push_decimal(out, n / 10);
    }
    let d: usize = n % 10;
    let c: char = if d == 0 {
        '0'
    } else if d == 1 {
        '1'
    } else if d == 2 {
        '2'
    } else if d == 3 {
        '3'
    } else if d == 4 {
        '4'
    } else if d == 5 {
        '5'
    } else if d == 6 {
        '6'
    } else if d == 7 {
        '7'
    } else if d == 8 {
        '8'
    } else {
        '9'
    };
    out.push(c);
    assert(out@ =~= old(out)@ + decimal(n as nat));
}

/// Appends the characters of `text`.
fn push_text(out: &mut Vec<char>, text: &str)
    ensures
        final(out)@ == old(out)@ + text@,
{
    let n: usize = text.unicode_len();
    let mut i: usize = 0;
    while i < n
        invariant
            i <= n == text@.len(),
            out@ == old(out)@ + text@.take(i as int),
        decreases n - i,
    {
        out.push(text.get_char(i));
        assert(out@ =~= old(out)@ + text@.take(i + 1));
        i = i + 1;
    }
    assert(text@.take(n as int) =~= text@);
}

/// The source text of the constant that holds `data` under the name
/// `constant`, for a file called `file`: a comment with the name of the
/// file, then the constant with the number of bytes and the bytes, in
/// decimal and without spaces.
pub fn const_source(file: &str, constant: &str, data: &[u8]) -> (r: String)
    ensures
        r@ == const_text(file@, constant@, data@),
{
    let mut out: Vec<char> = Vec::new();
    push_text(&mut out, "/// ORIGNAL FILE: ");
    push_text(&mut out, file);
    push_text(&mut out, "\n#[doc(hidden)]pub const ");
    push_text(&mut out, constant);
    push_text(&mut out, ": [u8;");
    push_decimal(&mut out, data.len());
    push_text(&mut out, "] = [");
    let ghost head = out@;
    let n: usize = data.len();
    let mut i: usize = 0;
    assert(data@.take(0) =~= Seq::<u8>::empty());
    while i < n
        invariant
            i <= n == data@.len(),
            out@ == head + items(data@.take(i as int)),
        decreases n - i,
    {
        if i > 0 {
            out.push(',');
        }
        push_decimal(&mut out, data[i] as usize);
        proof {
            let upto = data@.take(i + 1);
            assert(upto.drop_last() =~= data@.take(i as int));
            assert(upto.last() == data@[i as int]);
            assert(out@ =~= head + items(upto));
        }
        i = i + 1;
    }
    assert(data@.take(n as int) =~= data@);
    push_text(&mut out, "];\n");
    let r = string_of(&out);
    assert(r@ =~= const_text(file@, constant@, data@));
    r
}

/// The source text of the constant for `asset`: that of [`const_source`],
/// with the asset's name in upper case as the name of the constant.
pub fn const_builder(asset: &Asset) -> (r: String)
    ensures
        r@ == const_text(asset.original_name@, uppercase(asset.name@), asset.data@),
{
    let constant = to_uppercase(asset.name.as_str());
    const_source(asset.original_name.as_str(), constant.as_str(), asset.data.as_slice())
}

} // verus!
