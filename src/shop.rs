//! Helpers of the shop client: the access token of an auth redirect, the
//! shard of a client id, the User-Agent, cookies and daily offers.
use vstd::prelude::*;
use crate::text::{chars_of, string_from_chars};

verus! {

/// Session cookies of a signed-in account, as the client stores them.
#[derive(Clone, Debug)]
pub struct RiotCookies {
    pub asid: Option<String>,
    pub ccid: Option<String>,
    pub clid: Option<String>,
    pub sub: Option<String>,
    pub csid: Option<String>,
    pub ssid: Option<String>,
    pub tdid: Option<String>,
}

/// One offer of the daily shop.
#[derive(Clone, Debug)]
pub struct DailyOffer {
    pub skin_uuid: String,
    pub vp_cost: u64,
}

/// The query key that introduces the access token in a redirect location.
pub const ACCESS_TOKEN_KEY: &'static str = "access_token=";

pub const USER_AGENT_PREFIX: &'static str = "RiotClient/";

pub const USER_AGENT_SUFFIX: &'static str = " rso-auth (Windows;10;;Professional, x64)";

pub open spec fn occurs_at(s: Seq<char>, i: int, pat: Seq<char>) -> bool {
    0 <= i && i + pat.len() <= s.len() && s.subrange(i, i + pat.len()) == pat
}

/// The first position at or after `i` where `pat` occurs in `s`.
pub open spec fn find_from(s: Seq<char>, pat: Seq<char>, i: int) -> Option<int>
    decreases s.len() + 1 - i,
{
    if i < 0 || i + pat.len() > s.len() {
        None
    } else if occurs_at(s, i, pat) {
        Some(i)
    } else {
        find_from(s, pat, i + 1)
    }
}

/// `s` up to, not including, its first `'&'`.
pub open spec fn up_to_amp(s: Seq<char>) -> Seq<char>
    decreases s.len(),
{
    if s.len() == 0 || s[0] == '&' {
        seq![]
    } else {
        seq![s[0]] + up_to_amp(s.drop_first())
    }
}

/// The value that follows the first `access_token=` in `s`, up to the next
/// `&` or the end; none when the key is missing or the value is empty.
pub open spec fn access_token_of(s: Seq<char>) -> Option<Seq<char>> {
    match find_from(s, ACCESS_TOKEN_KEY@, 0) {
        None => None,
        Some(i) => {
            let t = up_to_amp(s.subrange(i + ACCESS_TOKEN_KEY@.len(), s.len() as int));
            if t.len() == 0 {
                None
            } else {
                Some(t)
            }
        },
    }
}

fn occurs_at_exec(s: &Vec<char>, i: usize, pat: &Vec<char>) -> (r: bool)
    requires
        i + pat@.len() <= s@.len(),
    ensures
        r == occurs_at(s@, i as int, pat@),
{
    let slen = s.len();
    let mut j: usize = 0;
    while j < pat.len()
        invariant
            slen == s@.len(),
            j <= pat@.len(),
            i + pat@.len() <= s@.len(),
            forall|k: int| 0 <= k < j ==> s@[i + k] == pat@[k],
        decreases pat@.len() - j,
    {
        if s[i + j] != pat[j] {
            proof {
                assert(s@.subrange(i as int, i + pat@.len())[j as int] != pat@[j as int]);
            }
            return false;
        }
        j = j + 1;
    }
    assert(s@.subrange(i as int, i + pat@.len()) =~= pat@);
    true
}

proof fn lemma_up_to_amp(s: Seq<char>, n: int)
    requires
        0 <= n <= s.len(),
        forall|k: int| 0 <= k < n ==> s[k] != '&',
        n == s.len() || s[n] == '&',
    ensures
        up_to_amp(s) == s.subrange(0, n),
    decreases n,
{
    if n > 0 {
        lemma_up_to_amp(s.drop_first(), n - 1);
        assert(s.subrange(0, n) =~= seq![s[0]] + s.drop_first().subrange(0, n - 1));
    } else {
        assert(s.subrange(0, 0) =~= Seq::<char>::empty());
    }
}

/// Extracts the access token from the location an auth redirect points to.
pub fn extract_access_token(location: &str) -> (r: Option<String>)
    ensures
        match access_token_of(location@) {
            None => r is None,
            Some(t) => r matches Some(v) && v@ == t,
        },
{
    let s = chars_of(location);
    let key = chars_of(ACCESS_TOKEN_KEY);
    proof {
        reveal_strlit("access_token=");
        assert(key@.len() == 13);
    }
    if key.len() > s.len() {
        return None;
    }
    let slen = s.len();
    let last = slen - key.len();
    let mut i: usize = 0;
    let mut found = false;
    while !found && i <= last
        invariant
            key@.len() == 13,
            slen == s@.len(),
            last == s@.len() - key@.len(),
            i <= last + 1,
            !found ==> find_from(s@, key@, 0) == find_from(s@, key@, i as int),
            found ==> occurs_at(s@, i as int, key@) && find_from(s@, key@, 0) == Some(i as int),
            key@ == ACCESS_TOKEN_KEY@,
            s@ == location@,
        decreases last + 1 - i + (if found { 0int } else { 1int }),
    {
        if occurs_at_exec(&s, i, &key) {
            found = true;
        } else {
            i = i + 1;
        }
    }
    if !found {
        assert(find_from(s@, key@, i as int) is None);
        return None;
    }
    let start = i + key.len();
    let ghost rest = s@.subrange(start as int, s@.len() as int);
    let mut out: Vec<char> = Vec::new();
    let mut j: usize = start;
    while j < s.len() && s[j] != '&'
        invariant
            start <= j <= s@.len(),
            out@ == s@.subrange(start as int, j as int),
            forall|k: int| start <= k < j ==> s@[k] != '&',
        decreases s@.len() - j,
    {
        out.push(s[j]);
        proof {
            assert(s@.subrange(start as int, j + 1) =~= s@.subrange(start as int, j as int).push(s@[j as int]));
        }
        j = j + 1;
    }
    proof {
        lemma_up_to_amp(rest, j - start);
        assert(rest.subrange(0, j - start) =~= out@);
    }
    if out.len() == 0 {
        None
    } else {
        Some(string_from_chars(&out))
    }
}

/// `s` with its trailing ASCII digits removed.
pub open spec fn trim_trailing_digits(s: Seq<char>) -> Seq<char>
    decreases s.len(),
{
    if s.len() > 0 && '0' <= s.last() <= '9' {
        trim_trailing_digits(s.drop_last())
    } else {
        s
    }
}

/// The shard of a client id, which is the id without its trailing digits
/// (`"eu1"` gives `"eu"`).
pub fn shard_from_clid(clid: &str) -> (r: String)
    ensures
        r@ == trim_trailing_digits(clid@),
{
    let mut v = chars_of(clid);
    while v.len() > 0 && '0' <= v[v.len() - 1] && v[v.len() - 1] <= '9'
        invariant
            trim_trailing_digits(v@) == trim_trailing_digits(clid@),
        decreases v@.len(),
    {
        v.pop();
    }
    string_from_chars(&v)
}

/// The User-Agent the client sends for a given build.
pub fn user_agent_for(build: &str) -> (r: String)
    ensures
        r@ == USER_AGENT_PREFIX@ + build@ + USER_AGENT_SUFFIX@,
{
    let mut r = String::from_str(USER_AGENT_PREFIX);
    r.append(build);
    r.append(USER_AGENT_SUFFIX);
    r
}

/// A `(name, value)` cookie entry as plain values.
pub type EntryView = (Option<Seq<char>>, Option<Seq<char>>);

pub open spec fn view_opt(o: Option<String>) -> Option<Seq<char>> {
    match o {
        Some(s) => Some(s@),
        None => None,
    }
}

pub open spec fn pair_view(e: (Option<String>, Option<String>)) -> EntryView {
    (view_opt(e.0), view_opt(e.1))
}

pub open spec fn entries_view(entries: Seq<(Option<String>, Option<String>)>) -> Seq<EntryView> {
    entries.map_values(|e: (Option<String>, Option<String>)| pair_view(e))
}

/// The value of the last entry named `name` that has both a name and a value.
pub open spec fn last_value(entries: Seq<EntryView>, name: Seq<char>) -> Option<Seq<char>>
    decreases entries.len(),
{
    if entries.len() == 0 {
        None
    } else {
        let e = entries.last();
        if e.0 == Some(name) && e.1 is Some {
            e.1
        } else {
            last_value(entries.drop_last(), name)
        }
    }
}

/// The cookies hold the last value given for each known session cookie and
/// the device id `tdid`.
pub open spec fn cookies_from(c: RiotCookies, entries: Seq<EntryView>, tdid: Option<Seq<char>>) -> bool {
    &&& view_opt(c.asid) == last_value(entries, "asid"@)
    &&& view_opt(c.ccid) == last_value(entries, "ccid"@)
    &&& view_opt(c.clid) == last_value(entries, "clid"@)
    &&& view_opt(c.sub) == last_value(entries, "sub"@)
    &&& view_opt(c.csid) == last_value(entries, "csid"@)
    &&& view_opt(c.ssid) == last_value(entries, "ssid"@)
    &&& view_opt(c.tdid) == tdid
}

fn take_if_named(slot: &mut Option<String>, key: &String, name: &String, value: &String)
    ensures
        name@ == key@ ==> view_opt(*final(slot)) == Some(value@),
        name@ != key@ ==> *final(slot) == *old(slot),
{
    if *name == *key {
        *slot = Some(value.clone());
    }
}

proof fn lemma_entries_prefix(entries: Seq<(Option<String>, Option<String>)>, i: int)
    requires
        0 <= i < entries.len(),
    ensures
        entries_view(entries.subrange(0, i + 1)).drop_last() == entries_view(entries.subrange(0, i)),
        entries_view(entries.subrange(0, i + 1)).last() == pair_view(entries[i]),
        entries_view(entries.subrange(0, i + 1)).len() == i + 1,
{
    assert(entries_view(entries.subrange(0, i + 1)).drop_last() =~= entries_view(entries.subrange(0, i)));
}

/// Collects the session cookies from `(name, value)` entries, in order,
/// and the device id. Entries missing a name or a value, and unknown names,
/// are skipped; a later entry wins over an earlier one.
pub fn collect_cookies(entries: &Vec<(Option<String>, Option<String>)>, tdid: Option<String>) -> (r: RiotCookies)
    ensures
        cookies_from(r, entries_view(entries@), view_opt(tdid)),
{
    let k_asid = "asid".to_string();
    let k_ccid = "ccid".to_string();
    let k_clid = "clid".to_string();
    let k_sub = "sub".to_string();
    let k_csid = "csid".to_string();
    let k_ssid = "ssid".to_string();
    let ghost t = view_opt(tdid);
    let mut c = RiotCookies { asid: None, ccid: None, clid: None, sub: None, csid: None, ssid: None, tdid };
    let mut i: usize = 0;
    assert(entries_view(entries@.subrange(0, 0)) =~= Seq::<EntryView>::empty());
    while i < entries.len()
        invariant
            i <= entries@.len(),
            k_asid@ == "asid"@, k_ccid@ == "ccid"@, k_clid@ == "clid"@,
            k_sub@ == "sub"@, k_csid@ == "csid"@, k_ssid@ == "ssid"@,
            cookies_from(c, entries_view(entries@.subrange(0, i as int)), t),
        decreases entries@.len() - i,
    {
        proof {
            lemma_entries_prefix(entries@, i as int);
        }
        let e = &entries[i];
        match (&e.0, &e.1) {
            (Some(n), Some(v)) => {
                take_if_named(&mut c.asid, &k_asid, n, v);
                take_if_named(&mut c.ccid, &k_ccid, n, v);
                take_if_named(&mut c.clid, &k_clid, n, v);
                take_if_named(&mut c.sub, &k_sub, n, v);
                take_if_named(&mut c.csid, &k_csid, n, v);
                take_if_named(&mut c.ssid, &k_ssid, n, v);
            },
            _ => {},
        }
        i = i + 1;
    }
    assert(entries@.subrange(0, entries@.len() as int) =~= entries@);
    c
}

/// Collects the session cookies from the `(name, value)` entries of the
/// settings file's cookie list, in file order, and the device id. `None`
/// when there is no `ssid`, without which the session cannot be used.
pub fn cookies_from_entries(entries: &Vec<(Option<String>, Option<String>)>, tdid: Option<String>) -> (r: Option<RiotCookies>)
    ensures
        last_value(entries_view(entries@), "ssid"@) is None ==> r is None,
        last_value(entries_view(entries@), "ssid"@) is Some
            ==> (r matches Some(c) && cookies_from(c, entries_view(entries@), view_opt(tdid))),
{
    let c = collect_cookies(entries, tdid);
    if c.ssid.is_none() {
        None
    } else {
        Some(c)
    }
}

/// The value of the last entry named `name` that has a value.
pub fn last_named(entries: &Vec<(Option<String>, Option<String>)>, name: &str) -> (r: Option<String>)
    ensures
        view_opt(r) == last_value(entries_view(entries@), name@),
{
    let key = name.to_string();
    let mut j: usize = entries.len();
    assert(entries@.subrange(0, j as int) =~= entries@);
    while j > 0
        invariant
            j <= entries@.len(),
            key@ == name@,
            last_value(entries_view(entries@), name@) == last_value(entries_view(entries@.subrange(0, j as int)), name@),
        decreases j,
    {
        proof {
            lemma_entries_prefix(entries@, j - 1);
        }
        let e = &entries[j - 1];
        match (&e.0, &e.1) {
            (Some(n), Some(v)) => {
                if *n == key {
                    return Some(v.clone());
                }
            },
            _ => {},
        }
        j = j - 1;
    }
    assert(entries_view(entries@.subrange(0, 0)) =~= Seq::<EntryView>::empty());
    None
}

/// The price of the offer with id `uuid` among `(offer id, price)` pairs:
/// the last pair with that id wins, and an offer without a price costs 0.
pub open spec fn price_of(offers: Seq<(String, u64)>, uuid: Seq<char>) -> u64
    decreases offers.len(),
{
    if offers.len() == 0 {
        0
    } else if offers.last().0@ == uuid {
        offers.last().1
    } else {
        price_of(offers.drop_last(), uuid)
    }
}

fn lookup_price(offers: &Vec<(String, u64)>, uuid: &String) -> (r: u64)
    ensures
        r == price_of(offers@, uuid@),
{
    let mut j: usize = offers.len();
    assert(offers@.subrange(0, j as int) =~= offers@);
    while j > 0
        invariant
            j <= offers@.len(),
            price_of(offers@, uuid@) == price_of(offers@.subrange(0, j as int), uuid@),
        decreases j,
    {
        let ghost pre = offers@.subrange(0, j as int);
        proof {
            assert(pre.drop_last() =~= offers@.subrange(0, j - 1));
            assert(pre.last() == offers@[j - 1]);
        }
        if offers[j - 1].0 == *uuid {
            return offers[j - 1].1;
        }
        j = j - 1;
    }
    assert(offers@.subrange(0, 0) =~= Seq::<(String, u64)>::empty());
    0
}

/// The daily offers, in the order of `skin_uuids`, each priced from the
/// store's `(offer id, price)` pairs.
pub fn daily_offers(skin_uuids: &Vec<String>, offers: &Vec<(String, u64)>) -> (r: Vec<DailyOffer>)
    ensures
        r@.len() == skin_uuids@.len(),
        forall|i: int| 0 <= i < r@.len() ==> (#[trigger] r@[i]).skin_uuid@ == skin_uuids@[i]@
            && r@[i].vp_cost == price_of(offers@, skin_uuids@[i]@),
{
    let mut out: Vec<DailyOffer> = Vec::new();
    let mut i: usize = 0;
    while i < skin_uuids.len()
        invariant
            i <= skin_uuids@.len(),
            out@.len() == i,
            forall|k: int| 0 <= k < i ==> (#[trigger] out@[k]).skin_uuid@ == skin_uuids@[k]@
                && out@[k].vp_cost == price_of(offers@, skin_uuids@[k]@),
        decreases skin_uuids@.len() - i,
    {
        let uuid = &skin_uuids[i];
        let vp_cost = lookup_price(offers, uuid);
        out.push(DailyOffer { skin_uuid: uuid.clone(), vp_cost });
        i = i + 1;
    }
    out
}

/// First position at or after `from` where `pat` occurs in `s`.
fn find_exec(s: &Vec<char>, pat: &Vec<char>, from: usize) -> (r: Option<usize>)
    ensures
        r is None <==> find_from(s@, pat@, from as int) is None,
        r matches Some(j) ==> find_from(s@, pat@, from as int) == Some(j as int)
            && from <= j && j + pat@.len() <= s@.len(),
{
    let slen = s.len();
    let plen = pat.len();
    if plen > slen || from > slen - plen {
        return None;
    }
    let last = slen - plen;
    let mut i: usize = from;
    while i <= last
        invariant
            slen == s@.len(),
            plen == pat@.len(),
            last == slen - plen,
            from <= i <= last + 1,
            find_from(s@, pat@, from as int) == find_from(s@, pat@, i as int),
        decreases last + 1 - i,
    {
        if occurs_at_exec(s, i, pat) {
            assert(find_from(s@, pat@, i as int) == Some(i as int));
            return Some(i);
        }
        if i == last {
            assert(find_from(s@, pat@, i + 1) is None);
            return None;
        }
        i = i + 1;
    }
    None
}

/// Separator between the pairs of a `Cookie` header.
pub const COOKIE_SEPARATOR: &'static str = "; ";

/// The pieces of `s` from `pos` on, split at each `"; "`.
pub open spec fn pieces_from(s: Seq<char>, pos: int) -> Seq<Seq<char>>
    decreases s.len() - pos,
{
    if pos < 0 || pos > s.len() {
        seq![]
    } else {
        match find_from(s, COOKIE_SEPARATOR@, pos) {
            None => seq![s.subrange(pos, s.len() as int)],
            Some(i) => if i + 2 <= s.len() && pos <= i && COOKIE_SEPARATOR@.len() == 2 {
                seq![s.subrange(pos, i)] + pieces_from(s, i + 2)
            } else {
                seq![]
            },
        }
    }
}

/// A `name=value` piece split at its first `=`; both sides unset without one.
pub open spec fn pair_of(piece: Seq<char>) -> (Option<Seq<char>>, Option<Seq<char>>) {
    match find_from(piece, seq!['='], 0) {
        None => (None, None),
        Some(i) => (Some(piece.subrange(0, i)), Some(piece.subrange(i + 1, piece.len() as int))),
    }
}

fn slice_string(v: &Vec<char>, from: usize, to: usize) -> (r: String)
    requires
        from <= to <= v@.len(),
    ensures
        r@ == v@.subrange(from as int, to as int),
{
    let mut out: Vec<char> = Vec::new();
    let mut k: usize = from;
    while k < to
        invariant
            from <= k <= to,
            to <= v@.len(),
            out@ == v@.subrange(from as int, k as int),
        decreases to - k,
    {
        out.push(v[k]);
        proof {
            assert(v@.subrange(from as int, k + 1) =~= v@.subrange(from as int, k as int).push(v@[k as int]));
        }
        k = k + 1;
    }
    string_from_chars(&out)
}

fn split_pair(piece: &Vec<char>) -> (r: (Option<String>, Option<String>))
    ensures
        pair_view(r) == pair_of(piece@),
{
    let mut eq: Vec<char> = Vec::new();
    eq.push('=');
    assert(eq@ =~= seq!['=']);
    let n = piece.len();
    match find_exec(piece, &eq, 0) {
        None => (None, None),
        Some(i) => (Some(slice_string(piece, 0, i)), Some(slice_string(piece, i + 1, n))),
    }
}

/// The `(name, value)` pairs of a `Cookie` header, in order.
pub fn cookie_pairs(header: &str) -> (r: Vec<(Option<String>, Option<String>)>)
    ensures
        entries_view(r@) == header_pairs(Some(header@)),
{
    let s = chars_of(header);
    let sep = chars_of(COOKIE_SEPARATOR);
    proof {
        reveal_strlit("; ");
    }
    let slen = s.len();
    let mut out: Vec<(Option<String>, Option<String>)> = Vec::new();
    let mut pos: usize = 0;
    let ghost mut done: Seq<Seq<char>> = seq![];
    loop
        invariant
            s@ == header@,
            slen == s@.len(),
            sep@ == COOKIE_SEPARATOR@,
            sep@.len() == 2,
            pos <= s@.len(),
            pieces_from(s@, 0) == done + pieces_from(s@, pos as int),
            out@.map_values(|e: (Option<String>, Option<String>)| pair_view(e))
                == done.map_values(|p: Seq<char>| pair_of(p)),
        decreases s@.len() - pos,
    {
        match find_exec(&s, &sep, pos) {
            None => {
                let piece = slice_string(&s, pos, s.len());
                let rest = chars_of(piece.as_str());
                let pair = split_pair(&rest);
                assert(pieces_from(s@, pos as int) =~= seq![s@.subrange(pos as int, s@.len() as int)]);
                let ghost before = out@;
                out.push(pair);
                proof {
                    let p = s@.subrange(pos as int, s@.len() as int);
                    assert(out@ =~= before.push(pair));
                    assert(out@.map_values(|e: (Option<String>, Option<String>)| pair_view(e))
                        =~= before.map_values(|e: (Option<String>, Option<String>)| pair_view(e)).push(pair_view(pair)));
                    assert((done + seq![p]).map_values(|q: Seq<char>| pair_of(q))
                        =~= done.map_values(|q: Seq<char>| pair_of(q)).push(pair_of(p)));
                    assert(pieces_from(s@, 0) =~= done + seq![p]);
                }
                return out;
            },
            Some(i) => {
                let piece = slice_string(&s, pos, i);
                let rest = chars_of(piece.as_str());
                let pair = split_pair(&rest);
                let ghost p = s@.subrange(pos as int, i as int);
                let ghost before = out@;
                out.push(pair);
                proof {
                    assert(pieces_from(s@, pos as int) =~= seq![p] + pieces_from(s@, i + 2));
                    assert(out@.map_values(|e: (Option<String>, Option<String>)| pair_view(e))
                        =~= before.map_values(|e: (Option<String>, Option<String>)| pair_view(e)).push(pair_view(pair)));
                    assert((done + seq![p]).map_values(|q: Seq<char>| pair_of(q))
                        =~= done.map_values(|q: Seq<char>| pair_of(q)).push(pair_of(p)));
                    assert(done + pieces_from(s@, pos as int) =~= (done + seq![p]) + pieces_from(s@, i + 2));
                    done = done + seq![p];
                }
                pos = i + 2;
            },
        }
    }
}

/// The `(name, value)` pairs of a `Cookie` header, as plain values; none
/// when there is no header.
pub open spec fn header_pairs(header: Option<Seq<char>>) -> Seq<EntryView> {
    match header {
        Some(h) => pieces_from(h, 0).map_values(|p: Seq<char>| pair_of(p)),
        None => seq![],
    }
}

pub open spec fn view_str(o: Option<&str>) -> Option<Seq<char>> {
    match o {
        Some(s) => Some(s@),
        None => None,
    }
}

fn header_entries(header: Option<&str>) -> (r: Vec<(Option<String>, Option<String>)>)
    ensures
        entries_view(r@) == header_pairs(view_str(header)),
{
    match header {
        Some(h) => cookie_pairs(h),
        None => {
            let v: Vec<(Option<String>, Option<String>)> = Vec::new();
            assert(entries_view(v@) =~= Seq::<EntryView>::empty());
            v
        },
    }
}

/// The cookies a signed-in client holds, read from the `Cookie` headers it
/// sends to the auth host (the session cookies) and to the main host (the
/// device id `tdid`). A missing header contributes nothing.
pub fn cookies_from_headers(auth_header: Option<&str>, riot_header: Option<&str>) -> (r: RiotCookies)
    ensures
        cookies_from(r, header_pairs(view_str(auth_header)),
            last_value(header_pairs(view_str(riot_header)), "tdid"@)),
{
    let auth = header_entries(auth_header);
    let riot = header_entries(riot_header);
    let tdid = last_named(&riot, "tdid");
    collect_cookies(&auth, tdid)
}

} // verus!
