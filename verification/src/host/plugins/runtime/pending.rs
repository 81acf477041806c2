//! Requests sent to plugin views that wait for an answer: search requests
//! to search providers and detection requests to detectors. A request is
//! answered at most once, and only by the runtime it was sent to.
use crate::ids::new_uuid_u128;
use crate::host::plugins::runtime::registry::{surface_pos, PluginRuntimeRegistry, RuntimeEntries};
use crate::protocol::plugin::last_before;
use crate::text::{chars_of, concat, owned, slice_chars, str_eq, string_from_chars};
use crate::plugin_runtime::preload::hex_digit_char;
use vstd::prelude::*;

verus! {

/// A request: who it is for (a provider or detector id) and a random nonce.
#[derive(Clone, Debug, PartialEq, Eq, Hash)]
pub struct RequestId {
    pub key: String,
    pub nonce: u128,
}

/// Search requests are addressed to a provider.
pub type SearchRequestId = RequestId;

/// Detection requests are addressed to a detector.
pub type DetectionRequestId = RequestId;

struct PendingEntry<T> {
    key: String,
    nonce: u128,
    runtime_id: String,
    reply: T,
}

/// A waiting request: its key, nonce, and the runtime that is to answer.
pub type PendingView = (Seq<char>, u128, Seq<char>);

/// The first waiting request with the id (the length when none has it).
pub open spec fn pending_pos(s: Seq<PendingView>, key: Seq<char>, nonce: u128) -> int
    decreases s.len(),
{
    if s.len() == 0 {
        0
    } else if s[0].0 == key && s[0].1 == nonce {
        0
    } else {
        1 + pending_pos(s.drop_first(), key, nonce)
    }
}

pub proof fn lemma_pending_pos(s: Seq<PendingView>, key: Seq<char>, nonce: u128)
    ensures
        0 <= pending_pos(s, key, nonce) <= s.len(),
        forall|i: int|
            0 <= i < pending_pos(s, key, nonce) ==> !((#[trigger] s[i]).0 == key && s[i].1 == nonce),
        pending_pos(s, key, nonce) < s.len() ==> s[pending_pos(s, key, nonce)].0 == key
            && s[pending_pos(s, key, nonce)].1 == nonce,
    decreases s.len(),
{
    if s.len() > 0 && !(s[0].0 == key && s[0].1 == nonce) {
        lemma_pending_pos(s.drop_first(), key, nonce);
        assert forall|i: int| 0 <= i < pending_pos(s, key, nonce) implies !((#[trigger] s[i]).0
            == key && s[i].1 == nonce) by {
            if i > 0 {
                assert(s[i] == s.drop_first()[i - 1]);
            }
        }
    }
}

/// The waiting requests that `keep` keeps, in order.
pub open spec fn kept(s: Seq<PendingView>, keep: spec_fn(PendingView) -> bool) -> Seq<PendingView>
    decreases s.len(),
{
    if s.len() == 0 {
        Seq::empty()
    } else if keep(s.last()) {
        kept(s.drop_last(), keep).push(s.last())
    } else {
        kept(s.drop_last(), keep)
    }
}

/// The replies of the waiting requests that `keep` keeps, in order; `rs`
/// holds the replies of the requests `s`.
pub open spec fn kept_replies<T>(
    s: Seq<PendingView>,
    rs: Seq<T>,
    keep: spec_fn(PendingView) -> bool,
) -> Seq<T>
    decreases s.len(),
{
    if s.len() == 0 || rs.len() == 0 {
        Seq::empty()
    } else if keep(s.last()) {
        kept_replies(s.drop_last(), rs.drop_last(), keep).push(rs.last())
    } else {
        kept_replies(s.drop_last(), rs.drop_last(), keep)
    }
}

pub open spec fn not_for_key(key: Seq<char>) -> spec_fn(PendingView) -> bool {
    |e: PendingView| e.0 != key
}

pub open spec fn not_for_runtime(runtime_id: Seq<char>) -> spec_fn(PendingView) -> bool {
    |e: PendingView| e.2 != runtime_id
}

/// Requests waiting for an answer; `T` is how the answer is passed on.
pub struct PendingRequests<T> {
    entries: Vec<PendingEntry<T>>,
}

impl<T> PendingRequests<T> {
    /// The waiting requests, oldest first.
    pub closed spec fn waiting(&self) -> Seq<PendingView> {
        self.entries@.map_values(|e: PendingEntry<T>| (e.key@, e.nonce, e.runtime_id@))
    }

    /// How each waiting request's answer is passed on, in the same order.
    pub closed spec fn replies(&self) -> Seq<T> {
        self.entries@.map_values(|e: PendingEntry<T>| e.reply)
    }

    pub fn new() -> (r: Self)
        ensures
            r.waiting() == Seq::<PendingView>::empty(),
            r.replies() == Seq::<T>::empty(),
    {
        let r = PendingRequests { entries: Vec::new() };
        assert(r.waiting() =~= Seq::<PendingView>::empty());
        assert(r.replies() =~= Seq::<T>::empty());
        r
    }

    fn position(&self, key: &str, nonce: u128) -> (i: usize)
        ensures
            i == pending_pos(self.waiting(), key@, nonce),
    {
        proof {
            lemma_pending_pos(self.waiting(), key@, nonce);
        }
        let mut i: usize = 0;
        while i < self.entries.len()
            invariant
                i <= self.entries@.len(),
                self.waiting().len() == self.entries@.len(),
                0 <= pending_pos(self.waiting(), key@, nonce) <= self.waiting().len(),
                i <= pending_pos(self.waiting(), key@, nonce),
                forall|j: int|
                    0 <= j < pending_pos(self.waiting(), key@, nonce) ==> !((#[trigger] self.waiting()[j]).0
                        == key@ && self.waiting()[j].1 == nonce),
                pending_pos(self.waiting(), key@, nonce) < self.waiting().len() ==> self.waiting()[pending_pos(self.waiting(), key@, nonce)].0 == key@
                    && self.waiting()[pending_pos(self.waiting(), key@, nonce)].1 == nonce,
            decreases self.entries.len() - i,
        {
            assert(self.waiting()[i as int] == (self.entries@[i as int].key@, self.entries@[i as int].nonce, self.entries@[i as int].runtime_id@));
            if self.entries[i].nonce == nonce && str_eq(self.entries[i].key.as_str(), key) {
                return i;
            }
            i = i + 1;
        }
        i
    }

    /// Waits for an answer to the request `(key, nonce)` from the runtime,
    /// replacing a request with the same id.
    pub fn register_with_nonce(&mut self, key: &str, nonce: u128, runtime_id: String, reply: T) -> (id:
        RequestId)
        ensures
            id.key@ == key@,
            id.nonce == nonce,
            ({
                let old_w = old(self).waiting();
                let old_r = old(self).replies();
                let p = pending_pos(old_w, key@, nonce);
                let rest = if p < old_w.len() {
                    old_w.remove(p)
                } else {
                    old_w
                };
                let rest_r = if p < old_w.len() {
                    old_r.remove(p)
                } else {
                    old_r
                };
                &&& final(self).waiting() == rest.push((key@, nonce, runtime_id@))
                &&& final(self).replies() == rest_r.push(reply)
            }),
    {
        let i = self.position(key, nonce);
        let ghost pre = self.waiting();
        let ghost pre_r = self.replies();
        if i < self.entries.len() {
            let _ = self.entries.remove(i);
            assert(self.waiting() =~= pre.remove(i as int));
            assert(self.replies() =~= pre_r.remove(i as int));
        }
        let ghost mid = self.waiting();
        let ghost mid_r = self.replies();
        self.entries.push(PendingEntry { key: owned(key), nonce, runtime_id: runtime_id.clone(), reply });
        assert(self.waiting() =~= mid.push((key@, nonce, runtime_id@)));
        assert(self.replies() =~= mid_r.push(reply));
        RequestId { key: owned(key), nonce }
    }

    /// Waits for an answer to a new request for `key` from the runtime. The
    /// request gets a random nonce.
    pub fn register_pending(&mut self, key: &str, runtime_id: String, reply: T) -> (id: RequestId)
        ensures
            id.key@ == key@,
            ({
                let old_w = old(self).waiting();
                let old_r = old(self).replies();
                let p = pending_pos(old_w, key@, id.nonce);
                let rest = if p < old_w.len() {
                    old_w.remove(p)
                } else {
                    old_w
                };
                let rest_r = if p < old_w.len() {
                    old_r.remove(p)
                } else {
                    old_r
                };
                &&& final(self).waiting() == rest.push((key@, id.nonce, runtime_id@))
                &&& final(self).replies() == rest_r.push(reply)
            }),
    {
        let nonce = new_uuid_u128();
        self.register_with_nonce(key, nonce, runtime_id, reply)
    }

    /// An answer from `runtime_id` arrives. The request stops waiting
    /// whoever answers, and the other requests keep waiting with their own
    /// replies; this request's own reply channel is handed back only when
    /// the runtime it was sent to answered.
    pub fn complete(&mut self, id: &RequestId, runtime_id: &str) -> (r: Option<T>)
        ensures
            ({
                let old_w = old(self).waiting();
                let old_r = old(self).replies();
                let p = pending_pos(old_w, id.key@, id.nonce);
                if p < old_w.len() {
                    &&& final(self).waiting() == old_w.remove(p)
                    &&& final(self).replies() == old_r.remove(p)
                    &&& (r is Some <==> old_w[p].2 == runtime_id@)
                    &&& (r matches Some(reply) ==> reply == old_r[p])
                } else {
                    &&& final(self).waiting() == old_w
                    &&& final(self).replies() == old_r
                    &&& r is None
                }
            }),
    {
        let i = self.position(id.key.as_str(), id.nonce);
        if i >= self.entries.len() {
            return None;
        }
        let ghost pre = self.waiting();
        let ghost pre_r = self.replies();
        let entry = self.entries.remove(i);
        assert(self.waiting() =~= pre.remove(i as int));
        assert(self.replies() =~= pre_r.remove(i as int));
        assert(pre_r[i as int] == entry.reply);
        assert(pre[i as int].2 == entry.runtime_id@);
        if str_eq(entry.runtime_id.as_str(), runtime_id) {
            Some(entry.reply)
        } else {
            None
        }
    }

    /// A request times out and stops waiting.
    pub fn cancel(&mut self, id: &RequestId)
        ensures
            ({
                let old_w = old(self).waiting();
                let old_r = old(self).replies();
                let p = pending_pos(old_w, id.key@, id.nonce);
                &&& final(self).waiting() == if p < old_w.len() {
                    old_w.remove(p)
                } else {
                    old_w
                }
                &&& final(self).replies() == if p < old_w.len() {
                    old_r.remove(p)
                } else {
                    old_r
                }
            }),
    {
        let i = self.position(id.key.as_str(), id.nonce);
        if i < self.entries.len() {
            let ghost pre = self.waiting();
            let ghost pre_r = self.replies();
            let _ = self.entries.remove(i);
            assert(self.waiting() =~= pre.remove(i as int));
            assert(self.replies() =~= pre_r.remove(i as int));
        }
    }

    fn retain_where(&mut self, key: Option<&str>, runtime_id: Option<&str>, Ghost(keep): Ghost<spec_fn(PendingView) -> bool>)
        requires
            forall|e: PendingView| #[trigger] keep(e) == (match key {
                Some(k) => e.0 != k@,
                None => true,
            } && match runtime_id {
                Some(r) => e.2 != r@,
                None => true,
            }),
        ensures
            final(self).waiting() == kept(old(self).waiting(), keep),
            final(self).replies() == kept_replies(old(self).waiting(), old(self).replies(), keep),
    {
        let ghost pre = self.waiting();
        let ghost pre_r = self.replies();
        let mut old_entries = Vec::new();
        std::mem::swap(&mut old_entries, &mut self.entries);
        let ghost all = old_entries@;
        assert(all.map_values(|e: PendingEntry<T>| (e.key@, e.nonce, e.runtime_id@)) == pre);
        assert(all.map_values(|e: PendingEntry<T>| e.reply) == pre_r);
        assert(pre_r.take(0) =~= Seq::<T>::empty());
        let mut out: Vec<PendingEntry<T>> = Vec::new();
        let mut rest = old_entries;
        let n = rest.len();
        let mut taken: usize = 0;
        assert(rest@ =~= all.skip(0));
        assert(pre.take(0) =~= Seq::<PendingView>::empty());
        while rest.len() > 0
            invariant
                taken + rest@.len() == n,
                n == all.len(),
                pre == all.map_values(|e: PendingEntry<T>| (e.key@, e.nonce, e.runtime_id@)),
                pre_r == all.map_values(|e: PendingEntry<T>| e.reply),
                out@.map_values(|e: PendingEntry<T>| e.reply) == kept_replies(
                    pre.take(taken as int),
                    pre_r.take(taken as int),
                    keep,
                ),
                rest@ == all.skip(taken as int),
                out@.map_values(|e: PendingEntry<T>| (e.key@, e.nonce, e.runtime_id@)) == kept(
                    pre.take(taken as int),
                    keep,
                ),
                forall|e: PendingView| #[trigger] keep(e) == (match key {
                    Some(k) => e.0 != k@,
                    None => true,
                } && match runtime_id {
                    Some(r) => e.2 != r@,
                    None => true,
                }),
            decreases rest.len(),
        {
            let ghost before = out@;
            let ghost before_r = out@.map_values(|e: PendingEntry<T>| e.reply);
            let e = rest.remove(0);
            assert(e == all[taken as int]);
            assert(rest@ =~= all.skip(taken + 1));
            let ghost v = (e.key@, e.nonce, e.runtime_id@);
            assert(pre[taken as int] == v);
            assert(pre.take(taken + 1).drop_last() =~= pre.take(taken as int));
            assert(pre_r[taken as int] == e.reply);
            assert(pre_r.take(taken + 1).drop_last() =~= pre_r.take(taken as int));
            assert(pre_r.take(taken + 1).last() == e.reply);
            assert(pre.take(taken + 1).last() == v);
            let drop_key = match key {
                Some(k) => str_eq(e.key.as_str(), k),
                None => false,
            };
            let drop_runtime = match runtime_id {
                Some(r) => str_eq(e.runtime_id.as_str(), r),
                None => false,
            };
            if !drop_key && !drop_runtime {
                out.push(e);
                assert(out@.map_values(|e: PendingEntry<T>| (e.key@, e.nonce, e.runtime_id@))
                    =~= before.map_values(|e: PendingEntry<T>| (e.key@, e.nonce, e.runtime_id@)).push(v));
                assert(out@.map_values(|e: PendingEntry<T>| e.reply) =~= before_r.push(e.reply));
            }
            taken = taken + 1;
        }
        assert(pre.take(n as int) =~= pre);
        assert(pre_r.take(n as int) =~= pre_r);
        self.entries = out;
    }

    /// Every request for the key (a provider or detector going away) stops
    /// waiting.
    pub fn cancel_key(&mut self, key: &str)
        ensures
            final(self).waiting() == kept(old(self).waiting(), not_for_key(key@)),
            final(self).replies() == kept_replies(
                old(self).waiting(),
                old(self).replies(),
                not_for_key(key@),
            ),
    {
        self.retain_where(Some(key), None, Ghost(not_for_key(key@)));
    }

    /// Every request sent to the runtime stops waiting.
    pub fn cancel_runtime(&mut self, runtime_id: &str)
        ensures
            final(self).waiting() == kept(old(self).waiting(), not_for_runtime(runtime_id@)),
            final(self).replies() == kept_replies(
                old(self).waiting(),
                old(self).replies(),
                not_for_runtime(runtime_id@),
            ),
    {
        self.retain_where(None, Some(runtime_id), Ghost(not_for_runtime(runtime_id@)));
    }
}

/// A request is answered at most once: after an answer (from anyone) it is
/// no longer waiting, so no second answer finds it.
pub proof fn law_answered_at_most_once(s: Seq<PendingView>, key: Seq<char>, nonce: u128)
    requires
        forall|i: int, j: int|
            0 <= i < j < s.len() ==> !(#[trigger] s[i].0 == #[trigger] s[j].0 && s[i].1 == s[j].1),
        pending_pos(s, key, nonce) < s.len(),
    ensures
        pending_pos(s.remove(pending_pos(s, key, nonce)), key, nonce) == s.len() - 1,
{
    let p = pending_pos(s, key, nonce);
    let t = s.remove(p);
    lemma_pending_pos(s, key, nonce);
    lemma_pending_pos(t, key, nonce);
    let q = pending_pos(t, key, nonce);
    if q < t.len() {
        if q < p {
            assert(t[q] == s[q]);
        } else {
            assert(t[q] == s[q + 1]);
            assert(s[p].0 == s[q + 1].0 && s[p].1 == s[q + 1].1);
        }
    }
}

// ── request ids as text ─────────────────────────────────────

/// The UUID that uuid's `Uuid::parse_str` reads from `s`, as a number.
pub uninterp spec fn uuid_of_text(s: Seq<char>) -> Option<u128>;

/// The last `k` hexadecimal digits of `n`, most significant first, lower
/// case.
pub open spec fn hex_digits(n: nat, k: nat) -> Seq<char>
    decreases k,
{
    if k == 0 {
        Seq::empty()
    } else {
        hex_digits(n / 16, (k - 1) as nat).push(hex_digit_char((n % 16) as u32))
    }
}

/// The text of the UUID `n` as uuid's `Uuid::to_string` writes it: its 32
/// hexadecimal digits in lower case, most significant first, in groups of
/// 8-4-4-4-12 joined by hyphens.
pub open spec fn uuid_text(n: u128) -> Seq<char> {
    let h = hex_digits(n as nat, 32);
    h.subrange(0, 8) + "-"@ + h.subrange(8, 12) + "-"@ + h.subrange(12, 16) + "-"@ + h.subrange(
        16,
        20,
    ) + "-"@ + h.subrange(20, 32)
}

/// uuid's `Uuid::parse_str`, then `as_u128`. What it reads is named by
/// `uuid_of_text`, not stated.
#[verifier::external_body]
fn parse_uuid(s: &str) -> (r: Option<u128>)
    ensures
        r == uuid_of_text(s@),
{
    uuid::Uuid::parse_str(s).ok().map(|u| u.as_u128())
}

/// uuid's `Uuid::from_u128`, then `to_string`: the hyphenated form, which
/// is hexadecimal digits and hyphens only (so it has no `.`) and which
/// `Uuid::parse_str` reads back as the same UUID.
#[verifier::external_body]
fn format_uuid(n: u128) -> (r: String)
    ensures
        r@ == uuid_text(n),
        uuid_of_text(r@) == Some(n),
        forall|i: int| 0 <= i < r@.len() ==> r@[i] != '.',
{
    uuid::Uuid::from_u128(n).to_string()
}

/// A request id as text: `{key}.{nonce}`.
pub fn request_id_text(id: &RequestId) -> (s: String)
    ensures
        s@ == id.key@ + "."@ + uuid_text(id.nonce),
        uuid_of_text(uuid_text(id.nonce)) == Some(id.nonce),
        forall|i: int| 0 <= i < uuid_text(id.nonce).len() ==> uuid_text(id.nonce)[i] != '.',
{
    let nonce = format_uuid(id.nonce);
    let a = concat(id.key.as_str(), ".");
    concat(a.as_str(), nonce.as_str())
}

/// The request id a text names: it is split at its last `.` into the key
/// and the nonce, which must read as a UUID.
pub open spec fn request_id_of_text(s: Seq<char>) -> Option<(Seq<char>, u128)> {
    let d = last_before(s, '.', s.len() as int);
    if d < 0 {
        None
    } else {
        match uuid_of_text(s.subrange(d + 1, s.len() as int)) {
            Some(n) => Some((s.subrange(0, d), n)),
            None => None,
        }
    }
}

/// Reads a request id from its text.
pub fn parse_request_id(text: &str) -> (r: Option<RequestId>)
    ensures
        match r {
            Some(id) => request_id_of_text(text@) == Some((id.key@, id.nonce)),
            None => request_id_of_text(text@) is None,
        },
{
    let v = chars_of(text);
    let n = v.len();
    let mut d: usize = n;
    while d > 0 && v[d - 1] != '.'
        invariant
            v@ == text@,
            n == text@.len(),
            d <= n,
            last_before(text@, '.', n as int) == last_before(text@, '.', d as int),
        decreases d,
    {
        d = d - 1;
    }
    if d == 0 {
        return None;
    }
    let nonce_text = string_from_chars(&slice_chars(&v, d, n));
    match parse_uuid(nonce_text.as_str()) {
        Some(nonce) => Some(RequestId { key: string_from_chars(&slice_chars(&v, 0, d - 1)), nonce }),
        None => None,
    }
}

proof fn lemma_last_dot(s: Seq<char>, k: Seq<char>, t: Seq<char>, n: int)
    requires
        s == k + "."@ + t,
        "."@ == seq!['.'],
        forall|i: int| 0 <= i < t.len() ==> t[i] != '.',
        k.len() + 1 <= n <= s.len(),
    ensures
        last_before(s, '.', n) == k.len(),
    decreases n,
{
    if n > k.len() + 1 {
        assert(s[n - 1] == t[n - 1 - k.len() - 1]);
        lemma_last_dot(s, k, t, n - 1);
    } else {
        assert(s[n - 1] == '.');
    }
}

/// Reading the text of a request id gives the id back, whatever its key
/// holds (dots included).
pub proof fn law_request_id_round_trip(key: Seq<char>, nonce: u128)
    requires
        uuid_of_text(uuid_text(nonce)) == Some(nonce),
        forall|i: int| 0 <= i < uuid_text(nonce).len() ==> uuid_text(nonce)[i] != '.',
    ensures
        request_id_of_text(key + "."@ + uuid_text(nonce)) == Some((key, nonce)),
{
    reveal_strlit(".");
    assert("."@ =~= seq!['.']);
    let s = key + "."@ + uuid_text(nonce);
    lemma_last_dot(s, key, uuid_text(nonce), s.len() as int);
    assert(s.subrange(key.len() + 1int, s.len() as int) =~= uuid_text(nonce));
    assert(s.subrange(0, key.len() as int) =~= key);
}

/// Whose answer a submission from the webview is, and to which request:
/// the webview must show a runtime, and the request id must read.
pub fn submission_target(registry: &PluginRuntimeRegistry, webview_label: &str, request_id: &str) -> (r:
    Option<(String, RequestId)>)
    requires
        registry.wf(),
    ensures
        r is Some <==> surface_pos(registry.runtimes(), webview_label@) < registry.runtimes().len()
            && request_id_of_text(request_id@) is Some,
        r matches Some((runtime, id)) ==> runtime@ == registry.runtimes()[surface_pos(
            registry.runtimes(),
            webview_label@,
        ) as int].1.id && request_id_of_text(request_id@) == Some((id.key@, id.nonce)),
{
    let context = match registry.runtime_for_surface_id(webview_label) {
        Some(c) => c,
        None => {
            return None;
        },
    };
    match parse_request_id(request_id) {
        Some(id) => Some((context.id, id)),
        None => None,
    }
}

} // verus!
