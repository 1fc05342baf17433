//! Reading Blaze TDF message bodies with the reader of the `tdf` crate.
//!
//! Each reader below starts a `TdfDeserializer` on the bytes not read yet,
//! makes one read and gives back the value read with the number of bytes
//! that remain after it. The outcome of each read is named by a spec
//! function of those bytes, so the decoders here state which reads they
//! make, in which order, and what they build from them.
use vstd::prelude::*;
use vstd::slice::slice_subrange;
use tdf::TdfDeserializeOwned;
use crate::encode::{Tag, TdfKind, valid_tag};
use crate::attrs::pair_texts;
use crate::rules::{RuleSet, build_rules};
use crate::models::game_manager::MatchmakingRequest;
use crate::retriever::OriginLoginResponse;

verus! {

#[verifier::external_type_specification]
#[verifier::external_body]
pub struct ExTdfDecodeError(tdf::DecodeError);

/// Input that could not be decoded.
#[derive(Debug, Clone, Copy, PartialEq, Eq, Structural)]
pub struct ReadError;

/// The bytes of `rest` still to read once `remaining` of them remain.
pub open spec fn after(rest: Seq<u8>, remaining: usize) -> Seq<u8> {
    rest.skip(rest.len() - remaining)
}

/// The type bytes of the values that hold other values (group, list, map,
/// tagged union, generic), through which the reader descends.
pub open spec fn is_container_type(b: u8) -> bool {
    b == 3 || b == 4 || b == 5 || b == 6 || b == 12
}

/// How many bytes of `s` are container type bytes.
pub open spec fn container_count(s: Seq<u8>) -> nat
    decreases s.len(),
{
    if s.len() == 0 {
        0
    } else {
        container_count(s.drop_last()) + if is_container_type(s.last()) { 1nat } else { 0nat }
    }
}

/// Whether the nine bytes of `s` from `i` all have their top bit set.
pub open spec fn high_run(s: Seq<u8>, i: int) -> bool {
    &&& s[i] >= 0x80 && s[i + 1] >= 0x80 && s[i + 2] >= 0x80
    &&& s[i + 3] >= 0x80 && s[i + 4] >= 0x80 && s[i + 5] >= 0x80
    &&& s[i + 6] >= 0x80 && s[i + 7] >= 0x80 && s[i + 8] >= 0x80
}

/// Whether no nine consecutive bytes of `s` all have their top bit set:
/// then every variable-length integer in `s`, wherever a read starts, has
/// at most nine bytes and is below 2^62.
pub open spec fn short_var_ints(s: Seq<u8>) -> bool {
    forall|i: int| 0 <= i && i + 9 <= s.len() ==> !#[trigger] high_run(s, i)
}

/// Most container type bytes that a body read here may hold.
pub const MAX_CONTAINER_BYTES: usize = 256;

/// Bytes that the `tdf` reader reads without overflowing or nesting
/// deeply, however it walks them: on a 64-bit target, no length it reads
/// reaches 2^62, so adding one to its cursor cannot overflow; and since it
/// descends one level only after reading a container type byte further on,
/// its recursion stays within `MAX_CONTAINER_BYTES` levels (a few frames
/// each).
pub open spec fn reads_bounded(s: Seq<u8>) -> bool {
    &&& usize::BITS == 64
    &&& short_var_ints(s)
    &&& container_count(s) <= MAX_CONTAINER_BYTES
}

proof fn lemma_container_count_suffix(s: Seq<u8>, k: int)
    requires
        0 <= k <= s.len(),
    ensures
        container_count(s.skip(k)) <= container_count(s),
    decreases s.len(),
{
    if k < s.len() {
        assert(s.skip(k).drop_last() =~= s.drop_last().skip(k));
        assert(s.skip(k).last() == s.last());
        lemma_container_count_suffix(s.drop_last(), k);
    } else {
        assert(s.skip(k).len() == 0);
    }
}

/// Every suffix of bounded bytes is bounded.
proof fn lemma_bounded_suffix(s: Seq<u8>, k: int)
    requires
        reads_bounded(s),
        0 <= k <= s.len(),
    ensures
        reads_bounded(s.skip(k)),
{
    lemma_container_count_suffix(s, k);
    let t = s.skip(k);
    assert forall|i: int| 0 <= i && i + 9 <= t.len() implies !#[trigger] high_run(t, i) by {
        assert(high_run(t, i) == high_run(s, k + i));
        assert(!high_run(s, k + i));
    }
}

/// Whether the body `bytes` is bounded (see `reads_bounded`).
pub fn check_bounded(bytes: &[u8]) -> (r: bool)
    ensures
        r == reads_bounded(bytes@),
{
    if usize::BITS != 64 {
        return false;
    }
    let n = bytes.len();
    let mut i: usize = 0;
    while i < n && n - i >= 9
        invariant
            n == bytes@.len(),
            forall|j: int| 0 <= j < i && j + 9 <= n ==> !#[trigger] high_run(bytes@, j),
        decreases n - i,
    {
        if bytes[i] >= 0x80 && bytes[i + 1] >= 0x80 && bytes[i + 2] >= 0x80 && bytes[i + 3] >= 0x80
            && bytes[i + 4] >= 0x80 && bytes[i + 5] >= 0x80 && bytes[i + 6] >= 0x80 && bytes[i + 7] >= 0x80
            && bytes[i + 8] >= 0x80 {
            proof {
                assert(high_run(bytes@, i as int));
            }
            return false;
        }
        i = i + 1;
    }
    let mut count: usize = 0;
    let mut k: usize = 0;
    while k < n
        invariant
            n == bytes@.len(),
            0 <= k <= n,
            count == container_count(bytes@.take(k as int)),
            count <= k,
        decreases n - k,
    {
        proof {
            assert(bytes@.take(k + 1).drop_last() =~= bytes@.take(k as int));
            assert(bytes@.take(k + 1).last() == bytes@[k as int]);
        }
        let b = bytes[k];
        if b == 3 || b == 4 || b == 5 || b == 6 || b == 12 {
            count = count + 1;
        }
        k = k + 1;
    }
    proof {
        assert(bytes@.take(n as int) =~= bytes@);
    }
    count <= MAX_CONTAINER_BYTES
}

/// Outcome of `TdfDeserializer::until_tag(tag, ty)` on `rest`: the number
/// of bytes left after the tag, or `None` on an error.
pub uninterp spec fn tdf_until_tag(rest: Seq<u8>, tag: Tag, ty: TdfKind) -> Option<usize>;

/// Outcome of `TdfDeserializer::until_list_typed(tag, ty)` on `rest`: the
/// list length and the number of bytes left after its header.
pub uninterp spec fn tdf_until_list_typed(rest: Seq<u8>, tag: Tag, ty: TdfKind) -> Option<(usize, usize)>;

/// Outcome of `TdfDeserializer::tag::<String>(tag)` on `rest`: the string
/// and the number of bytes left after it.
pub uninterp spec fn tdf_tag_string(rest: Seq<u8>, tag: Tag) -> Option<(Seq<char>, usize)>;

/// Outcome of `String::deserialize_owned` on `rest`: the string and the
/// number of bytes left after it.
pub uninterp spec fn tdf_string(rest: Seq<u8>) -> Option<(Seq<char>, usize)>;

/// Outcome of `Blob::skip` on `rest`: the number of bytes left after it.
pub uninterp spec fn tdf_skip_blob(rest: Seq<u8>) -> Option<usize>;

/// Outcome of `GroupSlice::deserialize_content_skip` on `rest`: the number
/// of bytes left after the rest of the group and its end.
pub uninterp spec fn tdf_skip_group(rest: Seq<u8>) -> Option<usize>;

/// `TdfDeserializer::until_tag`: moves past the tag `tag` of kind `ty`.
#[verifier::external_body]
fn read_until_tag(rest: &[u8], tag: Tag, ty: TdfKind) -> (r: Result<usize, tdf::DecodeError>)
    requires
        reads_bounded(rest@),
        valid_tag(tag),
    ensures
        match r {
            Ok(n) => tdf_until_tag(rest@, tag, ty) == Some(n) && n <= rest@.len(),
            Err(_) => tdf_until_tag(rest@, tag, ty) is None,
        },
{
    let ty = match ty {
        TdfKind::VarInt => tdf::TdfType::VarInt,
        TdfKind::String => tdf::TdfType::String,
        TdfKind::Group => tdf::TdfType::Group,
    };
    let mut reader = tdf::TdfDeserializer::new(rest);
    match reader.until_tag(&[tag[0] as u8, tag[1] as u8, tag[2] as u8, tag[3] as u8], ty) {
        Ok(()) => Ok(reader.remaining()),
        Err(err) => Err(err),
    }
}

/// `TdfDeserializer::until_list_typed`: moves past the header of the list
/// `tag` of values of kind `ty`, giving its length.
#[verifier::external_body]
fn read_until_list_typed(rest: &[u8], tag: Tag, ty: TdfKind) -> (r: Result<(usize, usize), tdf::DecodeError>)
    requires
        reads_bounded(rest@),
        valid_tag(tag),
    ensures
        match r {
            Ok((count, n)) => tdf_until_list_typed(rest@, tag, ty) == Some((count, n)) && n <= rest@.len(),
            Err(_) => tdf_until_list_typed(rest@, tag, ty) is None,
        },
{
    let ty = match ty {
        TdfKind::VarInt => tdf::TdfType::VarInt,
        TdfKind::String => tdf::TdfType::String,
        TdfKind::Group => tdf::TdfType::Group,
    };
    let mut reader = tdf::TdfDeserializer::new(rest);
    match reader.until_list_typed(&[tag[0] as u8, tag[1] as u8, tag[2] as u8, tag[3] as u8], ty) {
        Ok(count) => Ok((count, reader.remaining())),
        Err(err) => Err(err),
    }
}

/// `TdfDeserializer::tag::<String>`: reads the string under the tag `tag`.
#[verifier::external_body]
fn read_tag_string(rest: &[u8], tag: Tag) -> (r: Result<(String, usize), tdf::DecodeError>)
    requires
        reads_bounded(rest@),
        valid_tag(tag),
    ensures
        match r {
            Ok((value, n)) => tdf_tag_string(rest@, tag) == Some((value@, n)) && n <= rest@.len(),
            Err(_) => tdf_tag_string(rest@, tag) is None,
        },
{
    let mut reader = tdf::TdfDeserializer::new(rest);
    match reader.tag::<String>(&[tag[0] as u8, tag[1] as u8, tag[2] as u8, tag[3] as u8]) {
        Ok(value) => Ok((value, reader.remaining())),
        Err(err) => Err(err),
    }
}

/// `<String as TdfDeserializeOwned>::deserialize_owned`: reads an untagged
/// string.
#[verifier::external_body]
fn read_string(rest: &[u8]) -> (r: Result<(String, usize), tdf::DecodeError>)
    requires
        reads_bounded(rest@),
    ensures
        match r {
            Ok((value, n)) => tdf_string(rest@) == Some((value@, n)) && n <= rest@.len(),
            Err(_) => tdf_string(rest@) is None,
        },
{
    let mut reader = tdf::TdfDeserializer::new(rest);
    match String::deserialize_owned(&mut reader) {
        Ok(value) => Ok((value, reader.remaining())),
        Err(err) => Err(err),
    }
}

/// `Blob::skip`: moves past a length-prefixed value.
#[verifier::external_body]
fn read_skip_blob(rest: &[u8]) -> (r: Result<usize, tdf::DecodeError>)
    requires
        reads_bounded(rest@),
    ensures
        match r {
            Ok(n) => tdf_skip_blob(rest@) == Some(n) && n <= rest@.len(),
            Err(_) => tdf_skip_blob(rest@) is None,
        },
{
    let mut reader = tdf::TdfDeserializer::new(rest);
    match tdf::Blob::skip(&mut reader) {
        Ok(()) => Ok(reader.remaining()),
        Err(err) => Err(err),
    }
}

/// `GroupSlice::deserialize_content_skip`: moves past the rest of the
/// current group and its end.
#[verifier::external_body]
fn read_skip_group(rest: &[u8]) -> (r: Result<usize, tdf::DecodeError>)
    requires
        reads_bounded(rest@),
    ensures
        match r {
            Ok(n) => tdf_skip_group(rest@) == Some(n) && n <= rest@.len(),
            Err(_) => tdf_skip_group(rest@) is None,
        },
{
    let mut reader = tdf::TdfDeserializer::new(rest);
    match tdf::GroupSlice::deserialize_content_skip(&mut reader) {
        Ok(_) => Ok(reader.remaining()),
        Err(err) => Err(err),
    }
}

/// The bytes of `rest` still to read once `remaining` of them remain.
fn advance(rest: &[u8], remaining: usize) -> (r: &[u8])
    requires
        remaining <= rest@.len(),
    ensures
        r@ == after(rest@, remaining),
        reads_bounded(rest@) ==> reads_bounded(r@),
{
    proof {
        if reads_bounded(rest@) {
            lemma_bounded_suffix(rest@, rest@.len() - remaining);
        }
    }
    let r = slice_subrange(rest, rest.len() - remaining, rest.len());
    proof {
        assert(r@ =~= after(rest@, remaining));
    }
    r
}

/// The bytes left after skipping `n` length-prefixed values in `rest`.
pub open spec fn skip_blobs(rest: Seq<u8>, n: nat) -> Option<Seq<u8>>
    decreases n,
{
    if n == 0 {
        Some(rest)
    } else {
        match tdf_skip_blob(rest) {
            Some(k) => skip_blobs(after(rest, k), (n - 1) as nat),
            None => None,
        }
    }
}

/// One matchmaking rule group read from `rest`: its name (`NAME`), its
/// list of values (`VALU`), of which the first is the rule's value and the
/// others are skipped, then the rest of the group up to its end. Gives the
/// rule (none for a rule without values) and the bytes after the group.
pub open spec fn read_rule_group(rest: Seq<u8>) -> Option<(Option<(Seq<char>, Seq<char>)>, Seq<u8>)> {
    match tdf_tag_string(rest, ['N', 'A', 'M', 'E']) {
        None => None,
        Some((name, k1)) => {
            let r1 = after(rest, k1);
            match tdf_until_list_typed(r1, ['V', 'A', 'L', 'U'], TdfKind::String) {
                None => None,
                Some((count, k2)) => {
                    let r2 = after(r1, k2);
                    if count == 0 {
                        match tdf_skip_group(r2) {
                            None => None,
                            Some(k) => Some((None, after(r2, k))),
                        }
                    } else {
                        match tdf_string(r2) {
                            None => None,
                            Some((value, k3)) => match skip_blobs(after(r2, k3), (count - 1) as nat) {
                                None => None,
                                Some(r4) => match tdf_skip_group(r4) {
                                    None => None,
                                    Some(k4) => Some((Some((name, value)), after(r4, k4))),
                                },
                            },
                        }
                    }
                },
            }
        },
    }
}

/// The rules of `n` rule groups read one after the other from `rest`,
/// following the rules `acc` already read.
pub open spec fn read_rule_groups(rest: Seq<u8>, n: nat, acc: Seq<(Seq<char>, Seq<char>)>) -> Option<Seq<(Seq<char>, Seq<char>)>>
    decreases n,
{
    if n == 0 {
        Some(acc)
    } else {
        match read_rule_group(rest) {
            None => None,
            Some((rule, r)) => read_rule_groups(r, (n - 1) as nat, match rule {
                Some(p) => acc.push(p),
                None => acc,
            }),
        }
    }
}

/// The (name, value) rule pairs of a matchmaking request body: past the
/// criteria group `CRIT`, the rule list `RLST` holds that many rule
/// groups, read in order. A body that is not bounded (see
/// `reads_bounded`) is refused.
pub open spec fn matchmaking_pairs(bytes: Seq<u8>) -> Option<Seq<(Seq<char>, Seq<char>)>> {
    if !reads_bounded(bytes) {
        None
    } else {
    match tdf_until_tag(bytes, ['C', 'R', 'I', 'T'], TdfKind::Group) {
        None => None,
        Some(k0) => {
            let r0 = after(bytes, k0);
            match tdf_until_list_typed(r0, ['R', 'L', 'S', 'T'], TdfKind::Group) {
                None => None,
                Some((count, k1)) => read_rule_groups(after(r0, k1), count as nat, Seq::empty()),
            }
        },
    }
}
}

/// Skips `n` length-prefixed values.
fn skip_values(rest: &[u8], n: usize) -> (r: Result<&[u8], ReadError>)
    requires
        reads_bounded(rest@),
    ensures
        r matches Ok(t) ==> reads_bounded(t@),
        match skip_blobs(rest@, n as nat) {
            None => r is Err,
            Some(s) => r matches Ok(t) && t@ == s,
        },
{
    let mut cur = rest;
    let mut i: usize = 0;
    while i < n
        invariant
            0 <= i <= n,
            skip_blobs(rest@, n as nat) == skip_blobs(cur@, (n - i) as nat),
            reads_bounded(cur@),
        decreases n - i,
    {
        let k = match read_skip_blob(cur) {
            Ok(k) => k,
            Err(_) => return Err(ReadError),
        };
        cur = advance(cur, k);
        i = i + 1;
    }
    Ok(cur)
}

/// Reads one rule group.
fn read_rule(rest: &[u8]) -> (r: Result<(Option<(String, String)>, &[u8]), ReadError>)
    requires
        reads_bounded(rest@),
    ensures
        r matches Ok((_, t)) ==> reads_bounded(t@),
        match read_rule_group(rest@) {
            None => r is Err,
            Some((rule, s)) => r matches Ok((q, t)) && t@ == s && match rule {
                None => q is None,
                Some(p) => q matches Some(x) && (x.0@, x.1@) == p,
            },
        },
{
    let (name, k1) = match read_tag_string(rest, ['N', 'A', 'M', 'E']) {
        Ok(v) => v,
        Err(_) => return Err(ReadError),
    };
    let r1 = advance(rest, k1);
    let (count, k2) = match read_until_list_typed(r1, ['V', 'A', 'L', 'U'], TdfKind::String) {
        Ok(v) => v,
        Err(_) => return Err(ReadError),
    };
    let r2 = advance(r1, k2);
    if count == 0 {
        // A rule without values: its group is read to its end
        let k = match read_skip_group(r2) {
            Ok(k) => k,
            Err(_) => return Err(ReadError),
        };
        return Ok((None, advance(r2, k)));
    }
    let (value, k3) = match read_string(r2) {
        Ok(v) => v,
        Err(_) => return Err(ReadError),
    };
    let r3 = advance(r2, k3);
    // Only the first value is used
    let r4 = skip_values(r3, count - 1)?;
    let k4 = match read_skip_group(r4) {
        Ok(k) => k,
        Err(_) => return Err(ReadError),
    };
    Ok((Some((name, value)), advance(r4, k4)))
}

/// Reads the rule set of a matchmaking request body.
pub fn read_matchmaking_request(bytes: &[u8]) -> (r: Result<MatchmakingRequest, ReadError>)
    ensures
        match matchmaking_pairs(bytes@) {
            None => r is Err,
            Some(pairs) => r matches Ok(request) && request.rules.view_rules() == build_rules(pairs),
        },
{
    if !check_bounded(bytes) {
        return Err(ReadError);
    }
    let k0 = match read_until_tag(bytes, ['C', 'R', 'I', 'T'], TdfKind::Group) {
        Ok(k) => k,
        Err(_) => return Err(ReadError),
    };
    let r0 = advance(bytes, k0);
    let (count, k1) = match read_until_list_typed(r0, ['R', 'L', 'S', 'T'], TdfKind::Group) {
        Ok(v) => v,
        Err(_) => return Err(ReadError),
    };
    let mut cur = advance(r0, k1);
    let ghost start = cur@;
    let mut rules: Vec<(String, String)> = Vec::new();
    proof {
        assert(pair_texts(rules@) =~= Seq::<(Seq<char>, Seq<char>)>::empty());
    }
    let mut i: usize = 0;
    while i < count
        invariant
            0 <= i <= count,
            matchmaking_pairs(bytes@) == read_rule_groups(start, count as nat, Seq::empty()),
            reads_bounded(cur@),
            read_rule_groups(start, count as nat, Seq::empty())
                == read_rule_groups(cur@, (count - i) as nat, pair_texts(rules@)),
        decreases count - i,
    {
        let (rule, next) = read_rule(cur)?;
        match rule {
            Some(pair) => {
                let ghost before = rules@;
                let ghost p = (pair.0@, pair.1@);
                rules.push(pair);
                proof {
                    assert(pair_texts(rules@) =~= pair_texts(before).push(p));
                }
            },
            None => {},
        }
        cur = next;
        i = i + 1;
    }
    proof {
        assert(matchmaking_pairs(bytes@) == Some(pair_texts(rules@)));
    }
    Ok(MatchmakingRequest { rules: RuleSet::new(rules) })
}

/// The account details of an Origin login response body: the email
/// (`MAIL`) past the session group `SESS`, then the display name (`DSNM`)
/// past the persona details group `PDTL`. A body that is not bounded
/// (see `reads_bounded`) is refused.
pub open spec fn origin_login_fields(bytes: Seq<u8>) -> Option<(Seq<char>, Seq<char>)> {
    if !reads_bounded(bytes) {
        None
    } else {
    match tdf_until_tag(bytes, ['S', 'E', 'S', 'S'], TdfKind::Group) {
        None => None,
        Some(k0) => {
            let r0 = after(bytes, k0);
            match tdf_tag_string(r0, ['M', 'A', 'I', 'L']) {
                None => None,
                Some((email, k1)) => {
                    let r1 = after(r0, k1);
                    match tdf_until_tag(r1, ['P', 'D', 'T', 'L'], TdfKind::Group) {
                        None => None,
                        Some(k2) => match tdf_tag_string(after(r1, k2), ['D', 'S', 'N', 'M']) {
                            None => None,
                            Some((name, _)) => Some((email, name)),
                        },
                    }
                },
            }
        },
    }
}
}

/// Reads the account details of an Origin login response body.
pub fn read_origin_login_response(bytes: &[u8]) -> (r: Result<OriginLoginResponse, ReadError>)
    ensures
        match origin_login_fields(bytes@) {
            None => r is Err,
            Some((email, name)) => r matches Ok(response) && response.email@ == email
                && response.display_name@ == name,
        },
{
    if !check_bounded(bytes) {
        return Err(ReadError);
    }
    let k0 = match read_until_tag(bytes, ['S', 'E', 'S', 'S'], TdfKind::Group) {
        Ok(k) => k,
        Err(_) => return Err(ReadError),
    };
    let r0 = advance(bytes, k0);
    let (email, k1) = match read_tag_string(r0, ['M', 'A', 'I', 'L']) {
        Ok(v) => v,
        Err(_) => return Err(ReadError),
    };
    let r1 = advance(r0, k1);
    let k2 = match read_until_tag(r1, ['P', 'D', 'T', 'L'], TdfKind::Group) {
        Ok(k) => k,
        Err(_) => return Err(ReadError),
    };
    let r2 = advance(r1, k2);
    let (display_name, _) = match read_tag_string(r2, ['D', 'S', 'N', 'M']) {
        Ok(v) => v,
        Err(_) => return Err(ReadError),
    };
    Ok(OriginLoginResponse { email, display_name })
}

} // verus!
