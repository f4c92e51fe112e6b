//! String helpers: prefix tests and the composite keys of the packet-identifier
//! tables.

use vstd::prelude::*;

verus! {

/// The character for a decimal digit.
pub open spec fn digit_char(d: int) -> char {
    if d == 0 {
        '0'
    } else if d == 1 {
        '1'
    } else if d == 2 {
        '2'
    } else if d == 3 {
        '3'
    } else if d == 4 {
        '4'
    } else if d == 5 {
        '5'
    } else if d == 6 {
        '6'
    } else if d == 7 {
        '7'
    } else if d == 8 {
        '8'
    } else {
        '9'
    }
}

/// The decimal numeral of `n`, without sign or leading zeros.
pub open spec fn decimal(n: nat) -> Seq<char>
    decreases n,
{
    if n < 10 {
        seq![digit_char(n as int)]
    } else {
        decimal(n / 10).push(digit_char((n % 10) as int))
    }
}

/// The separator between a client id and a packet identifier.
pub open spec fn key_separator() -> Seq<char> {
    seq!['_']
}

/// The key under which a record for `(client_id, pkid)` is stored: the client
/// id, an underscore, and the packet identifier in decimal.
pub open spec fn pkid_key(client_id: Seq<char>, pkid: u16) -> Seq<char> {
    client_id + key_separator() + decimal(pkid as nat)
}

/// The prefix that the keys of all records of `client_id` share.
pub open spec fn client_prefix(client_id: Seq<char>) -> Seq<char> {
    client_id + key_separator()
}

/// `format!` with `"{}_{}"`: `Display` writes a string as it is and a `u16` as its
/// decimal numeral.
#[verifier::external_body]
fn format_pkid_key(client_id: &String, pkid: u16) -> (key: String)
    ensures
        key@ == pkid_key(client_id@, pkid),
{
    format!("{}_{}", client_id, pkid)
}

/// `str::starts_with` with a string pattern: whether `prefix` is a prefix of `text`.
#[verifier::external_body]
fn str_starts_with(text: &str, prefix: &str) -> (found: bool)
    ensures
        found == prefix@.is_prefix_of(text@),
{
    text.starts_with(prefix)
}

/// Whether `text` begins with `prefix`.
pub fn has_prefix(text: &String, prefix: &String) -> (found: bool)
    ensures
        found == prefix@.is_prefix_of(text@),
{
    str_starts_with(text.as_str(), prefix.as_str())
}

/// The composite key of `(client_id, pkid)`.
pub fn composite_key(client_id: &String, pkid: u16) -> (key: String)
    ensures
        key@ == pkid_key(client_id@, pkid),
        client_prefix(client_id@).is_prefix_of(key@),
{
    let key = format_pkid_key(client_id, pkid);
    proof {
        lemma_key_has_client_prefix(client_id@, pkid);
    }
    key
}

/// The prefix `"<client_id>_"` of the composite keys of a client.
pub fn client_key_prefix(client_id: &String) -> (prefix: String)
    ensures
        prefix@ == client_prefix(client_id@),
{
    let mut prefix = client_id.clone();
    prefix.append("_");
    proof {
        reveal_strlit("_");
        assert("_"@ =~= key_separator());
    }
    prefix
}

/// The strings of a list, each taken by its characters, as a set.
pub open spec fn string_set(texts: Seq<String>) -> Set<Seq<char>> {
    Set::new(|t: Seq<char>| exists|i: int| 0 <= i < texts.len() && (#[trigger] texts[i])@ == t)
}

/// Appending a string to a list adds it to the set of the list.
pub proof fn lemma_string_set_push(texts: Seq<String>, text: String)
    ensures
        string_set(texts.push(text)) == string_set(texts).insert(text@),
{
    let more = texts.push(text);
    assert forall|t: Seq<char>| string_set(more).contains(t) <==> string_set(texts).insert(
        text@,
    ).contains(t) by {
        if string_set(texts).contains(t) {
            let i = choose|i: int| 0 <= i < texts.len() && (#[trigger] texts[i])@ == t;
            assert(more[i]@ == t);
        }
        if t == text@ {
            assert(more[texts.len() as int]@ == t);
        }
        if string_set(more).contains(t) {
            let i = choose|i: int| 0 <= i < more.len() && (#[trigger] more[i])@ == t;
            if i < texts.len() {
                assert(texts[i]@ == t);
            }
        }
    }
    assert(string_set(more) =~= string_set(texts).insert(text@));
}

/// Every composite key of a client begins with the client's prefix.
pub proof fn lemma_key_has_client_prefix(client_id: Seq<char>, pkid: u16)
    ensures
        client_prefix(client_id).is_prefix_of(pkid_key(client_id, pkid)),
{
    let p = client_prefix(client_id);
    let k = pkid_key(client_id, pkid);
    assert(k.subrange(0, p.len() as int) =~= p);
}

/// A decimal numeral is not empty and holds digits only; in particular it
/// holds no underscore.
pub proof fn lemma_decimal_is_digits(n: nat)
    ensures
        decimal(n).len() >= 1,
        forall|i: int| 0 <= i < decimal(n).len() ==> '0' <= #[trigger] decimal(n)[i] <= '9',
    decreases n,
{
    if n >= 10 {
        lemma_decimal_is_digits(n / 10);
    }
}

/// Different numbers have different decimal numerals.
pub proof fn lemma_decimal_is_injective(a: nat, b: nat)
    requires
        decimal(a) == decimal(b),
    ensures
        a == b,
    decreases a,
{
    lemma_decimal_is_digits(a / 10);
    lemma_decimal_is_digits(b / 10);
    if a < 10 && b < 10 {
        assert(decimal(a)[0] == digit_char(a as int));
        assert(decimal(b)[0] == digit_char(b as int));
    } else if a >= 10 && b >= 10 {
        let da = decimal(a / 10);
        let db = decimal(b / 10);
        assert(decimal(a) == da.push(digit_char((a % 10) as int)));
        assert(decimal(b) == db.push(digit_char((b % 10) as int)));
        assert(decimal(a).last() == digit_char((a % 10) as int));
        assert(decimal(b).last() == digit_char((b % 10) as int));
        assert(da =~= decimal(a).drop_last());
        assert(db =~= decimal(b).drop_last());
        lemma_decimal_is_injective(a / 10, b / 10);
        assert(a % 10 == b % 10);
    } else if a < 10 {
        assert(decimal(a).len() == 1);
        assert(decimal(b) == decimal(b / 10).push(digit_char((b % 10) as int)));
        assert(decimal(b).len() >= 2);
    } else {
        assert(decimal(b).len() == 1);
        assert(decimal(a) == decimal(a / 10).push(digit_char((a % 10) as int)));
        assert(decimal(a).len() >= 2);
    }
}

/// No two pairs of a client id and a packet identifier share a composite key,
/// whatever underscores the client ids hold.
pub proof fn lemma_key_is_injective(client_a: Seq<char>, pkid_a: u16, client_b: Seq<char>, pkid_b: u16)
    requires
        pkid_key(client_a, pkid_a) == pkid_key(client_b, pkid_b),
    ensures
        client_a == client_b,
        pkid_a == pkid_b,
{
    let key = pkid_key(client_a, pkid_a);
    let digits_a = decimal(pkid_a as nat);
    let digits_b = decimal(pkid_b as nat);
    lemma_decimal_is_digits(pkid_a as nat);
    lemma_decimal_is_digits(pkid_b as nat);
    assert(key.len() == client_a.len() + 1 + digits_a.len());
    assert(key.len() == client_b.len() + 1 + digits_b.len());
    if client_a.len() < client_b.len() {
        let at = client_b.len() as int;
        assert(pkid_key(client_b, pkid_b)[at] == '_');
        assert(key[at] == digits_a[at - client_a.len() - 1]);
    } else if client_b.len() < client_a.len() {
        let at = client_a.len() as int;
        assert(key[at] == '_');
        assert(pkid_key(client_b, pkid_b)[at] == digits_b[at - client_b.len() - 1]);
    } else {
        assert(client_a =~= key.subrange(0, client_a.len() as int));
        assert(client_b =~= key.subrange(0, client_b.len() as int));
        assert(digits_a =~= key.subrange(client_a.len() as int + 1, key.len() as int));
        assert(digits_b =~= key.subrange(client_b.len() as int + 1, key.len() as int));
        lemma_decimal_is_injective(pkid_a as nat, pkid_b as nat);
    }
}

} // verus!
