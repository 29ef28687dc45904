//! Polymorphic scalar wire values.
//!
//! These are the small value types that callers may supply in more than one
//! shape but that serialize to one canonical wire form: a number-or-string
//! value for axis coordinates that may be numeric or categorical, and the
//! "truthy enum" encoding, where one designated variant serializes as the
//! JSON boolean `false` while every other variant serializes as its tag
//! string.

use vstd::prelude::*;

use crate::wire::{dec_wire, i64_wire, json_dec, json_i64, json_string, str_wire, DecNum};

verus! {

/// A value that is either a number or a string, kept in the variant the
/// caller chose: the numeric variants serialize as unquoted JSON number
/// tokens, the string variant as a quoted JSON string, and no variant is
/// ever coerced into another.
#[derive(Debug, Clone)]
pub enum NumOrString {
    /// A decimal number; serializes as an unquoted number token.
    Dec(DecNum),
    /// A signed integer; serializes as an unquoted number token.
    Int(i64),
    /// A free-form label; serializes as a quoted JSON string.
    Str(String),
}

/// The wire fragment of a [`NumOrString`]: the number token of the numeric
/// variants, or the quoted string of the string variant.
pub open spec fn nos_wire(v: NumOrString) -> Seq<char> {
    match v {
        NumOrString::Dec(d) => dec_wire(d),
        NumOrString::Int(i) => i64_wire(i as int),
        NumOrString::Str(s) => str_wire(s@),
    }
}

impl NumOrString {
    pub fn to_wire(&self) -> (r: String)
        ensures
            r@ == nos_wire(*self),
    {
        match self {
            NumOrString::Dec(d) => json_dec(d),
            NumOrString::Int(i) => json_i64(*i),
            NumOrString::Str(s) => json_string(s.as_str()),
        }
    }
}

/// The wire fragments of a sequence of number-or-string values.
pub open spec fn nos_frags(s: Seq<NumOrString>) -> Seq<Seq<char>> {
    s.map_values(|v: NumOrString| nos_wire(v))
}

/// The JSON array of a vector of number-or-string values.
pub fn json_nos_array(v: &Vec<NumOrString>) -> (r: String)
    ensures
        r@ == crate::wire::arr_wire(nos_frags(v@)),
{
    let mut w = crate::wire::ArrWriter::new();
    let mut i: usize = 0;
    while i < v.len()
        invariant
            w.wf(),
            i <= v.len(),
            w.items() =~= nos_frags(v@.take(i as int)),
        decreases v.len() - i,
    {
        let frag = v[i].to_wire();
        w.elem(frag.as_str());
        proof {
            assert(nos_frags(v@.take(i + 1)) =~= nos_frags(v@.take(i as int)).push(
                nos_wire(v@[i as int]),
            ));
        }
        i = i + 1;
    }
    proof {
        assert(v@.take(v.len() as int) =~= v@);
    }
    w.finish()
}

/// An enum whose variants serialize as fixed tag strings, except that one
/// designated "off" variant serializes as the JSON boolean `false`. This is
/// the quirk of the external schema that overloads one field to mean both "a
/// named mode" and "disabled".
pub trait Truthy {
    /// The tag string of this variant.
    spec fn tag_spec(&self) -> Seq<char>;

    /// Whether this is the designated "off" variant.
    spec fn off_spec(&self) -> bool;

    fn tag(&self) -> (r: &'static str)
        ensures
            r@ == self.tag_spec(),
    ;

    fn is_off(&self) -> (r: bool)
        ensures
            r == self.off_spec(),
    ;
}

/// The wire fragment of a truthy enum value: the bare token `false` for the
/// "off" variant, and the quoted tag string for every other variant.
pub open spec fn truthy_wire<E: Truthy>(e: E) -> Seq<char> {
    if e.off_spec() {
        "false"@
    } else {
        str_wire(e.tag_spec())
    }
}

pub fn json_truthy<E: Truthy>(e: &E) -> (r: String)
    ensures
        r@ == truthy_wire(*e),
{
    if e.is_off() {
        String::from_str("false")
    } else {
        json_string(e.tag())
    }
}

/// Each number-or-string variant keeps its own wire form and is never
/// coerced into another: the numeric variants serialize as unquoted number
/// tokens, which begin with a digit or a minus sign, while the string
/// variant serializes as a quoted JSON string, which begins and ends with a
/// quote character.
pub proof fn lemma_num_or_string_forms(v: NumOrString)
    ensures
        v matches NumOrString::Dec(d) ==> nos_wire(v) == dec_wire(d) && nos_wire(v)[0] != '"',
        v matches NumOrString::Int(i) ==> nos_wire(v) == i64_wire(i as int) && nos_wire(v)[0]
            != '"',
        v matches NumOrString::Str(s) ==> nos_wire(v) == str_wire(s@) && nos_wire(v)[0] == '"'
            && nos_wire(v).last() == '"',
{
    match v {
        NumOrString::Dec(d) => {
            crate::wire::lemma_dec_wire_starts_unquoted(d);
        },
        NumOrString::Int(i) => {
            crate::wire::lemma_i64_wire_starts_unquoted(i as int);
        },
        NumOrString::Str(s) => {
            assert(str_wire(s@)[0] == '"');
            assert(str_wire(s@).last() == '"');
        },
    }
}

/// The "off" variant of a truthy enum serializes as the bare token `false`;
/// every other variant serializes as its quoted tag string, which always
/// begins with a quote character and therefore never reads back as the
/// boolean `false`.
pub proof fn lemma_truthy_never_false<E: Truthy>(e: E)
    ensures
        e.off_spec() ==> truthy_wire(e) == "false"@,
        !e.off_spec() ==> truthy_wire(e) == str_wire(e.tag_spec()),
        !e.off_spec() ==> truthy_wire(e) != "false"@,
{
    if !e.off_spec() {
        reveal_strlit("false");
        assert(truthy_wire(e)[0] == '"');
    }
}

} // verus!
