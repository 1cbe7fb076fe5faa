//! Reads named fields out of a url-encoded form body.
//!
//! A body is a `&`-separated list of parameters; a field's value is the text
//! of the first `field=`-prefixed parameter between its first `=` and the
//! next `=` or `&`, percent-decoded. Percent-decoding is delegated to the
//! `urlencoding` crate; what it yields is named by `url_decoded`.

use crate::strutil::{
    after_first, find_char, lemma_after_first_shorter, lemma_split_absent, lemma_split_at_first,
    str_starts_with, take_until,
};
use vstd::prelude::*;

verus! {

/// What `urlencoding::decode` yields for a percent-encoded string: the
/// decoded text, or `None` when the decoded bytes are not valid UTF-8.
pub uninterp spec fn url_decoded(s: Seq<char>) -> Option<Seq<char>>;

/// Relies on `urlencoding::decode`: percent-decoding is a function of the
/// input alone; it fails only when the decoded bytes are not valid UTF-8.
#[verifier::external_body]
fn url_decode(s: &str) -> (r: Option<String>)
    ensures
        match r {
            Some(d) => url_decoded(s@) == Some(d@),
            None => url_decoded(s@) is None,
        },
{
    match urlencoding::decode(s) {
        Ok(cow) => Some(cow.into_owned()),
        Err(_) => None,
    }
}

/// The raw (still percent-encoded) value of the first `field=`-prefixed
/// parameter of a form body, if any.
pub open spec fn spec_form_raw(body: Seq<char>, field: Seq<char>) -> Option<Seq<char>>
    decreases body.len(),
    via spec_form_raw_decreases
{
    if (field + seq!['=']).is_prefix_of(take_until(body, '&')) {
        Some(take_until(take_until(body, '&').skip(field.len() as int + 1), '='))
    } else {
        match after_first(body, '&') {
            None => None,
            Some(rest) => spec_form_raw(rest, field),
        }
    }
}

#[via_fn]
proof fn spec_form_raw_decreases(body: Seq<char>, field: Seq<char>) {
    lemma_after_first_shorter(body, '&');
}

/// The text extracting a field yields: the decoded value, or a note that
/// the field was missing or its value undecodable.
pub open spec fn spec_form_field(body: Seq<char>, field: Seq<char>) -> Seq<char> {
    match spec_form_raw(body, field) {
        None => "No "@ + field + " provided"@,
        Some(raw) => match url_decoded(raw) {
            None => "Invalid "@ + field,
            Some(d) => d,
        },
    }
}

/// Extracts a named field from a url-encoded form body.
pub fn get_from_form_body(field: String, req_body: String) -> (r: String)
    ensures
        r@ == spec_form_field(req_body@, field@),
{
    let prefix = field.clone().concat("=");
    proof {
        reveal_strlit("=");
        assert(prefix@ =~= field@ + seq!['=']);
    }
    let mut rest = req_body;
    loop
        invariant
            prefix@ == field@ + seq!['='],
            spec_form_raw(rest@, field@) == spec_form_raw(req_body@, field@),
        decreases rest@.len(),
    {
        let n = rest.as_str().unicode_len();
        let amp = find_char(rest.as_str(), '&');
        let piece_end: usize = match amp {
            Some(i) => i,
            None => n,
        };
        let piece = rest.as_str().substring_char(0, piece_end);
        proof {
            match amp {
                Some(i) => lemma_split_at_first(rest@, '&', i as int),
                None => lemma_split_absent(rest@, '&'),
            }
            assert(piece@ =~= take_until(rest@, '&'));
        }
        if str_starts_with(piece, prefix.as_str()) {
            let plen = prefix.as_str().unicode_len();
            let tail = piece.substring_char(plen, piece_end);
            proof {
                assert(tail@ =~= piece@.skip(field@.len() as int + 1));
            }
            let tail_len = tail.unicode_len();
            let eq = find_char(tail, '=');
            let value_end: usize = match eq {
                Some(j) => j,
                None => tail_len,
            };
            let raw = tail.substring_char(0, value_end);
            proof {
                match eq {
                    Some(j) => lemma_split_at_first(tail@, '=', j as int),
                    None => lemma_split_absent(tail@, '='),
                }
                assert(raw@ =~= take_until(tail@, '='));
            }
            match url_decode(raw) {
                Some(d) => {
                    return d;
                },
                None => {
                    return "Invalid ".to_owned().concat(field.as_str());
                },
            }
        } else {
            match amp {
                Some(i) => {
                    let shorter = rest.as_str().substring_char(i + 1, n).to_owned();
                    proof {
                        assert(shorter@ =~= rest@.skip(i as int + 1));
                    }
                    rest = shorter;
                },
                None => {
                    return "No ".to_owned().concat(field.as_str()).concat(" provided");
                },
            }
        }
    }
}

} // verus!
