//! The naming policy: how a declared identifier becomes its serialized key.
//!
//! A convention is attached to each field or enum variant of the type
//! model. `camelCase` and `PascalCase` treat `_` as a word separator, as
//! serialization frameworks conventionally do for snake_case identifiers;
//! `lowercase` folds ASCII letters; an explicit rename bypasses the
//! identifier entirely and returns the given literal.
use vstd::prelude::*;
use vstd::string::StrSliceExecFns;

verus! {

#[derive(Debug, Clone, PartialEq)]
pub enum NamingConvention {
    CamelCase,
    PascalCase,
    Lowercase,
    Rename(String),
}

pub ghost enum ConvV {
    Camel,
    Pascal,
    Lower,
    Rename(Seq<char>),
}

impl View for NamingConvention {
    type V = ConvV;

    open spec fn view(&self) -> ConvV {
        match self {
            NamingConvention::CamelCase => ConvV::Camel,
            NamingConvention::PascalCase => ConvV::Pascal,
            NamingConvention::Lowercase => ConvV::Lower,
            NamingConvention::Rename(lit) => ConvV::Rename(lit@),
        }
    }
}

impl DeepView for NamingConvention {
    type V = ConvV;

    open spec fn deep_view(&self) -> ConvV {
        self.view()
    }
}

/// An ASCII uppercase letter maps to its lowercase counterpart; every
/// other character is unchanged.
pub open spec fn lower_char(c: char) -> char {
    if 'A' <= c && c <= 'Z' {
        ((c as u8) + 32) as char
    } else {
        c
    }
}

/// An ASCII lowercase letter maps to its uppercase counterpart; every
/// other character is unchanged.
pub open spec fn upper_char(c: char) -> char {
    if 'a' <= c && c <= 'z' {
        ((c as u8) - 32) as char
    } else {
        c
    }
}

/// The PascalCase transformation from position `i` on: underscores are
/// dropped, and the character after a dropped underscore (or the first
/// character, when `cap` starts true) is uppercased.
pub open spec fn pascal_rec(s: Seq<char>, i: int, cap: bool) -> Seq<char>
    decreases s.len() - i,
{
    if i < 0 || i >= s.len() {
        Seq::empty()
    } else if s[i] == '_' {
        pascal_rec(s, i + 1, true)
    } else if cap {
        seq![upper_char(s[i])] + pascal_rec(s, i + 1, false)
    } else {
        seq![s[i]] + pascal_rec(s, i + 1, false)
    }
}

pub open spec fn pascal_of(s: Seq<char>) -> Seq<char> {
    pascal_rec(s, 0, true)
}

pub open spec fn lower_first(s: Seq<char>) -> Seq<char> {
    if s.len() == 0 {
        s
    } else {
        seq![lower_char(s[0])] + s.drop_first()
    }
}

/// camelCase is PascalCase with the leading character lowercased.
pub open spec fn camel_of(s: Seq<char>) -> Seq<char> {
    lower_first(pascal_of(s))
}

pub open spec fn lowercase_of(s: Seq<char>) -> Seq<char> {
    s.map_values(|c: char| lower_char(c))
}

/// The serialized key of `ident` under convention `c`.
pub open spec fn apply_conv(c: ConvV, ident: Seq<char>) -> Seq<char> {
    match c {
        ConvV::Camel => camel_of(ident),
        ConvV::Pascal => pascal_of(ident),
        ConvV::Lower => lowercase_of(ident),
        ConvV::Rename(lit) => lit,
    }
}

/// Relies on `String: FromIterator<&char>`: collecting the characters of
/// a vector yields the string of exactly those characters, in order.
#[verifier::external_body]
fn chars_to_string(cs: &Vec<char>) -> (r: String)
    ensures
        r@ == cs@,
{
    cs.iter().collect()
}

fn lower_char_exec(c: char) -> (r: char)
    ensures
        r == lower_char(c),
{
    if 'A' <= c && c <= 'Z' {
        ((c as u8) + 32) as char
    } else {
        c
    }
}

fn upper_char_exec(c: char) -> (r: char)
    ensures
        r == upper_char(c),
{
    if 'a' <= c && c <= 'z' {
        ((c as u8) - 32) as char
    } else {
        c
    }
}

fn pascal_chars(ident: &str) -> (r: Vec<char>)
    ensures
        r@ == pascal_of(ident@),
{
    let n = ident.unicode_len();
    let mut out: Vec<char> = Vec::new();
    let mut i: usize = 0;
    let mut cap: bool = true;
    while i < n
        invariant
            0 <= i <= n,
            n == ident@.len(),
            out@ + pascal_rec(ident@, i as int, cap) == pascal_of(ident@),
        decreases n - i,
    {
        let c = ident.get_char(i);
        if c == '_' {
            cap = true;
        } else if cap {
            out.push(upper_char_exec(c));
            cap = false;
            assert(out@ + pascal_rec(ident@, i + 1, false) =~= pascal_of(ident@));
        } else {
            out.push(c);
            assert(out@ + pascal_rec(ident@, i + 1, false) =~= pascal_of(ident@));
        }
        i = i + 1;
    }
    assert(out@ =~= pascal_of(ident@));
    out
}

fn lowercase_chars(ident: &str) -> (r: Vec<char>)
    ensures
        r@ == lowercase_of(ident@),
{
    let n = ident.unicode_len();
    let mut out: Vec<char> = Vec::new();
    let mut i: usize = 0;
    while i < n
        invariant
            0 <= i <= n,
            n == ident@.len(),
            out@.len() == i,
            forall|k: int| 0 <= k < i ==> out@[k] == lower_char(ident@[k]),
        decreases n - i,
    {
        let c = ident.get_char(i);
        out.push(lower_char_exec(c));
        i = i + 1;
    }
    assert(out@ =~= lowercase_of(ident@));
    out
}

/// The serialized key of `ident` under convention `conv`.
pub fn apply_convention(conv: &NamingConvention, ident: &str) -> (r: String)
    ensures
        r@ == apply_conv(conv@, ident@),
{
    match conv {
        NamingConvention::Rename(lit) => lit.clone(),
        NamingConvention::Lowercase => {
            let cs = lowercase_chars(ident);
            chars_to_string(&cs)
        },
        NamingConvention::PascalCase => {
            let cs = pascal_chars(ident);
            chars_to_string(&cs)
        },
        NamingConvention::CamelCase => {
            let cs = pascal_chars(ident);
            let mut out: Vec<char> = Vec::new();
            if cs.len() > 0 {
                out.push(lower_char_exec(cs[0]));
                let mut i: usize = 1;
                while i < cs.len()
                    invariant
                        1 <= i <= cs@.len(),
                        out@.len() == i,
                        out@[0] == lower_char(cs@[0]),
                        forall|k: int| 1 <= k < i ==> out@[k] == cs@[k],
                    decreases cs@.len() - i,
                {
                    out.push(cs[i]);
                    i = i + 1;
                }
            }
            assert(out@ =~= lower_first(cs@));
            chars_to_string(&out)
        },
    }
}

} // verus!
