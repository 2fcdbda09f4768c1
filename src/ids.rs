//! Record identifiers and the times stamped on stored records.

use vstd::prelude::*;
use crate::models::{model_prefix, ModelType, Timestamp};

verus! {

/// Length of the random part of an identifier.
pub const ID_LENGTH: usize = 10;

/// Characters of the random part: digits and letters, without those easily
/// mistaken for one another (`0`, `1`, `l`, `I`, `O`).
pub open spec fn is_id_char(c: char) -> bool {
    ||| '2' <= c <= '9'
    ||| ('a' <= c <= 'z' && c != 'l')
    ||| ('A' <= c <= 'Z' && c != 'I' && c != 'O')
}

/// A well-formed random identifier part.
pub open spec fn is_random_id(s: Seq<char>) -> bool {
    s.len() == ID_LENGTH && forall|i: int| 0 <= i < s.len() ==> is_id_char(#[trigger] s[i])
}

/// An identifier of kind `m` with random part `id`.
pub open spec fn model_id_of(m: ModelType, id: Seq<char>) -> Seq<char> {
    model_prefix(m) + "_"@ + id
}

/// The alphabet of identifiers, in order.
pub fn id_alphabet() -> (r: Vec<char>)
    ensures
        r@.len() == 57,
        forall|i: int| 0 <= i < r@.len() ==> is_id_char(#[trigger] r@[i]),
{
    vec![
        '2', '3', '4', '5', '6', '7', '8', '9', 'a', 'b', 'c', 'd', 'e', 'f', 'g', 'h', 'i', 'j',
        'k', 'm', 'n', 'o', 'p', 'q', 'r', 's', 't', 'u', 'v', 'w', 'x', 'y', 'z', 'A', 'B', 'C',
        'D', 'E', 'F', 'G', 'H', 'J', 'K', 'L', 'M', 'N', 'P', 'Q', 'R', 'S', 'T', 'U', 'V', 'W',
        'X', 'Y', 'Z',
    ]
}

/// Relies on nanoid::format with nanoid::rngs::default: it returns once it
/// has `size` characters, each drawn from `alphabet`. With an ASCII alphabet
/// its byte length is its character count. An empty alphabet or a zero size
/// would make it loop forever, and an alphabet over 255 characters panics.
#[verifier::external_body]
fn random_id(alphabet: &Vec<char>, size: usize) -> (r: String)
    requires
        0 < size <= 1024,
        0 < alphabet@.len() <= 255,
        forall|i: int| 0 <= i < alphabet@.len() ==> (#[trigger] alphabet@[i] as u32) < 128,
    ensures
        r@.len() == size,
        forall|i: int| 0 <= i < r@.len() ==> alphabet@.contains(#[trigger] r@[i]),
{
    nanoid::format(nanoid::rngs::default, alphabet.as_slice(), size)
}

/// A fresh random identifier part.
pub fn generate_id() -> (r: String)
    ensures
        is_random_id(r@),
{
    let alphabet = id_alphabet();
    let r = random_id(&alphabet, ID_LENGTH);
    assert forall|i: int| 0 <= i < r@.len() implies is_id_char(#[trigger] r@[i]) by {
        assert(alphabet@.contains(r@[i]));
    }
    r
}

/// The identifier of kind `model` with random part `id`.
pub fn model_id(model: ModelType, id: &str) -> (r: String)
    ensures
        r@ == model_id_of(model, id@),
{
    let mut r = model.id_prefix();
    r.append("_");
    r.append(id);
    r
}

/// A fresh identifier of kind `model`.
pub fn generate_model_id(model: ModelType) -> (r: String)
    ensures
        exists|id: Seq<char>| is_random_id(id) && r@ == model_id_of(model, id),
{
    let id = generate_id();
    model_id(model, id.as_str())
}

/// The identifier a note is stored under: its own, or a fresh one when it
/// has none yet.
pub fn note_id_for_upsert(id: String) -> (r: String)
    ensures
        id@.len() > 0 ==> r@ == id@,
        id@.len() == 0 ==> exists|rid: Seq<char>|
            is_random_id(rid) && r@ == model_id_of(ModelType::TypeNote, rid),
{
    if id.as_str().unicode_len() == 0 {
        generate_model_id(ModelType::TypeNote)
    } else {
        id
    }
}

/// Relies on chrono::Utc::now, read back through DateTime::timestamp and
/// DateTime::timestamp_subsec_nanos: the current time, of which nothing is
/// promised.
#[verifier::external_body]
fn now() -> (r: Timestamp) {
    let t = chrono::Utc::now();
    Timestamp { secs: t.timestamp(), nanos: t.timestamp_subsec_nanos() }
}

/// The time to store for `dt`: `now` when `dt` falls in the epoch's first
/// second, that is when it was never set, else `dt` itself.
pub fn upsert_timestamp(dt: Timestamp, now: Timestamp) -> (r: Timestamp)
    ensures
        r == (if dt.secs == 0 {
            now
        } else {
            dt
        }),
{
    if dt.secs == 0 {
        now
    } else {
        dt
    }
}

/// The time to store for `dt`, reading the clock only when `dt` was never set.
pub fn timestamp_for_upsert(dt: Timestamp) -> (r: Timestamp)
    ensures
        dt.secs != 0 ==> r == dt,
{
    if dt.secs == 0 {
        upsert_timestamp(dt, now())
    } else {
        dt
    }
}

} // verus!
