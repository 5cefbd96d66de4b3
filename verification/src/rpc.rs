use vstd::prelude::*;
use crate::error::KvmError;

verus! {

/// The decimal digit character for `d`.
pub open spec fn spec_digit_char(d: u64) -> char {
    if d == 0 {
        '0'
    } else if d == 1 {
        '1'
    } else if d == 2 {
        '2'
    } else if d == 3 {
        '3'
    } else if d == 4 {
        '4'
    } else if d == 5 {
        '5'
    } else if d == 6 {
        '6'
    } else if d == 7 {
        '7'
    } else if d == 8 {
        '8'
    } else {
        '9'
    }
}

/// The decimal text of `n`, most significant digit first.
pub open spec fn spec_u64_dec(n: u64) -> Seq<char>
    decreases n,
{
    if n < 10 {
        seq![spec_digit_char(n)]
    } else {
        spec_u64_dec(n / 10).push(spec_digit_char(n % 10))
    }
}

/// Appends the digit character for `d` to `s`.
fn push_digit(s: &mut String, d: u64)
    requires
        d < 10,
    ensures
        final(s)@ == old(s)@ + seq![spec_digit_char(d)],
{
    proof {
        reveal_strlit("0");
        reveal_strlit("1");
        reveal_strlit("2");
        reveal_strlit("3");
        reveal_strlit("4");
        reveal_strlit("5");
        reveal_strlit("6");
        reveal_strlit("7");
        reveal_strlit("8");
        reveal_strlit("9");
    }
    if d == 0 {
        s.append("0");
    } else if d == 1 {
        s.append("1");
    } else if d == 2 {
        s.append("2");
    } else if d == 3 {
        s.append("3");
    } else if d == 4 {
        s.append("4");
    } else if d == 5 {
        s.append("5");
    } else if d == 6 {
        s.append("6");
    } else if d == 7 {
        s.append("7");
    } else if d == 8 {
        s.append("8");
    } else {
        s.append("9");
    }
}

/// Appends the decimal text of `n` to `s`.
pub fn append_u64(s: &mut String, n: u64)
    ensures
        final(s)@ == old(s)@ + spec_u64_dec(n),
    decreases n,
{
    if n < 10 {
        push_digit(s, n);
    } else {
        append_u64(s, n / 10);
        push_digit(s, n % 10);
        proof {
            assert(old(s)@ + spec_u64_dec(n / 10) + seq![spec_digit_char(n % 10)] =~= old(s)@
                + spec_u64_dec(n));
        }
    }
}

/// The wire text of a JSON-RPC 2.0 request: one JSON object carrying the
/// protocol tag, the method, the caller's parameter object and the id.
/// `params_json` stands in the text verbatim; `method` must not need
/// JSON escaping (the appliance's method names never do).
pub open spec fn spec_request_text(method: Seq<char>, params_json: Seq<char>, id: u64) -> Seq<
    char,
> {
    "{\"jsonrpc\":\"2.0\",\"method\":\""@ + method + "\",\"params\":"@ + params_json + ",\"id\":"@
        + spec_u64_dec(id) + "}"@
}

/// Builds the wire frame of one JSON-RPC request, exactly as
/// `spec_request_text` lays it out.
pub fn encode_request(method: &str, params_json: &str, id: u64) -> (r: String)
    ensures
        r@ == spec_request_text(method@, params_json@, id),
{
    let mut s = String::new();
    s.append("{\"jsonrpc\":\"2.0\",\"method\":\"");
    s.append(method);
    s.append("\",\"params\":");
    s.append(params_json);
    s.append(",\"id\":");
    append_u64(&mut s, id);
    s.append("}");
    proof {
        assert(s@ =~= spec_request_text(method@, params_json@, id));
    }
    s
}

/// `p` with every occurrence of `id` removed, order kept.
pub open spec fn spec_remove_id(p: Seq<u64>, id: u64) -> Seq<u64>
    decreases p.len(),
{
    if p.len() == 0 {
        seq![]
    } else {
        let rest = spec_remove_id(p.drop_first(), id);
        if p[0] == id {
            rest
        } else {
            seq![p[0]] + rest
        }
    }
}

/// What resolving `id` against a pending-id list yields: the remaining
/// list and whether a slot was found.
pub open spec fn spec_resolve(p: Seq<u64>, id: u64) -> (Seq<u64>, bool) {
    (spec_remove_id(p, id), p.contains(id))
}

proof fn lemma_remove_id_contains(p: Seq<u64>, id: u64)
    ensures
        forall|x: u64| spec_remove_id(p, id).contains(x) <==> (p.contains(x) && x != id),
    decreases p.len(),
{
    broadcast use vstd::seq_lib::lemma_seq_contains_after_push;
    if p.len() == 0 {
        assert(forall|x: u64| !spec_remove_id(p, id).contains(x));
        assert(forall|x: u64| !p.contains(x));
    } else {
        lemma_remove_id_contains(p.drop_first(), id);
        let rest = spec_remove_id(p.drop_first(), id);
        assert forall|x: u64| p.contains(x) <==> (x == p[0] || p.drop_first().contains(x)) by {
            if p.contains(x) {
                let i = choose|i: int| 0 <= i < p.len() && p[i] == x;
                if i > 0 {
                    assert(p.drop_first()[i - 1] == x);
                }
            }
            if p.drop_first().contains(x) {
                let i = choose|i: int| 0 <= i < p.drop_first().len() && p.drop_first()[i] == x;
                assert(p[i + 1] == x);
            }
        }
        if p[0] != id {
            assert forall|x: u64| (seq![p[0]] + rest).contains(x) <==> (x == p[0]
                || rest.contains(x)) by {
                if (seq![p[0]] + rest).contains(x) {
                    let i = choose|i: int| 0 <= i < (seq![p[0]] + rest).len() && (seq![p[0]]
                        + rest)[i] == x;
                    if i > 0 {
                        assert(rest[i - 1] == x);
                    }
                }
                if rest.contains(x) {
                    let i = choose|i: int| 0 <= i < rest.len() && rest[i] == x;
                    assert((seq![p[0]] + rest)[i + 1] == x);
                }
                if x == p[0] {
                    assert((seq![p[0]] + rest)[0] == x);
                }
            }
        }
        assert forall|x: u64|
            spec_remove_id(p, id).contains(x) <==> (p.contains(x) && x != id) by {
            assert(spec_remove_id(p.drop_first(), id).contains(x) <==> (p.drop_first().contains(
                x,
            ) && x != id));
            assert(p.contains(x) <==> (x == p[0] || p.drop_first().contains(x)));
            if p[0] == id {
                assert(spec_remove_id(p, id) == rest);
            } else {
                assert(spec_remove_id(p, id) == seq![p[0]] + rest);
                assert((seq![p[0]] + rest).contains(x) <==> (x == p[0] || rest.contains(x)));
            }
        }
    }
}

/// A response resolves its pending slot at most once: once `id` has been
/// resolved out of the pending list, resolving it again finds nothing.
pub proof fn lemma_resolve_at_most_once(p: Seq<u64>, id: u64)
    ensures
        !spec_resolve(spec_resolve(p, id).0, id).1,
{
    lemma_remove_id_contains(p, id);
}

/// The id-keyed core of the JSON-RPC multiplexer: the monotone request
/// counter, the set of pending call ids, and whether the primary stream
/// is open. The transport and the completion slots live with the caller;
/// this core decides which id each call gets, which slot a response
/// resolves, and what closing the stream does to the pending set.
pub struct RpcCore {
    next_id: u64,
    pending: Vec<u64>,
    open: bool,
}

impl RpcCore {
    /// The pending call ids, in insertion order.
    pub closed spec fn pending_ids(&self) -> Seq<u64> {
        self.pending@
    }

    /// The id the next call will get.
    pub closed spec fn spec_next_id(&self) -> u64 {
        self.next_id
    }

    /// Whether the primary stream is marked open.
    pub closed spec fn is_open(&self) -> bool {
        self.open
    }

    /// Well-formed: every pending id was issued, and no id is pending
    /// twice.
    pub closed spec fn wf(&self) -> bool {
        &&& forall|i: int| 0 <= i < self.pending@.len() ==> self.pending@[i] < self.next_id
        &&& forall|i: int, j: int|
            0 <= i < j < self.pending@.len() ==> self.pending@[i] != self.pending@[j]
    }

    /// A fresh core: counting from 1, nothing pending, stream not open.
    pub fn new() -> (r: Self)
        ensures
            r.wf(),
            r.pending_ids() == Seq::<u64>::empty(),
            r.spec_next_id() == 1,
            !r.is_open(),
    {
        let r = RpcCore { next_id: 1, pending: Vec::new(), open: false };
        r
    }

    /// Marks the primary stream open or closed.
    pub fn set_open(&mut self, open: bool)
        requires
            old(self).wf(),
        ensures
            final(self).wf(),
            final(self).pending_ids() == old(self).pending_ids(),
            final(self).spec_next_id() == old(self).spec_next_id(),
            final(self).is_open() == open,
    {
        self.open = open;
    }

    /// Starts one call: hands out a fresh id and inserts its pending
    /// slot. The id never collides with any pending slot. Fails with
    /// `ChannelNotOpen`, changing nothing, exactly when the stream is
    /// not open.
    pub fn begin_call(&mut self) -> (r: Result<u64, KvmError>)
        requires
            old(self).wf(),
            old(self).spec_next_id() < u64::MAX,
        ensures
            final(self).wf(),
            final(self).is_open() == old(self).is_open(),
            (match r {
                Ok(id) => {
                    &&& old(self).is_open()
                    &&& id == old(self).spec_next_id()
                    &&& !old(self).pending_ids().contains(id)
                    &&& final(self).pending_ids() == old(self).pending_ids().push(id)
                    &&& final(self).spec_next_id() == id + 1
                },
                Err(e) => {
                    &&& e == KvmError::ChannelNotOpen
                    &&& !old(self).is_open()
                    &&& final(self).pending_ids() == old(self).pending_ids()
                    &&& final(self).spec_next_id() == old(self).spec_next_id()
                },
            }),
    {
        if !self.open {
            return Err(KvmError::ChannelNotOpen);
        }
        let id = self.next_id;
        self.next_id = id + 1;
        self.pending.push(id);
        proof {
            if old(self).pending@.contains(id) {
                let i = choose|i: int| 0 <= i < old(self).pending@.len() && old(self).pending@[i]
                    == id;
                assert(old(self).pending@[i] < id);
            }
        }
        Ok(id)
    }

    /// Resolves the slot a response with this id belongs to: reports
    /// whether such a slot was pending and removes it. A second
    /// resolution of the same id finds nothing
    /// (`lemma_resolve_at_most_once`).
    pub fn resolve(&mut self, id: u64) -> (r: bool)
        requires
            old(self).wf(),
        ensures
            final(self).wf(),
            r == old(self).pending_ids().contains(id),
            final(self).pending_ids() == spec_resolve(old(self).pending_ids(), id).0,
            final(self).spec_next_id() == old(self).spec_next_id(),
            final(self).is_open() == old(self).is_open(),
    {
        broadcast use vstd::seq_lib::lemma_seq_contains_after_push;
        let ghost p = self.pending@;
        let mut kept: Vec<u64> = Vec::new();
        let mut found = false;
        let mut i: usize = 0;
        proof {
            assert(p.skip(0) =~= p);
            assert(p.take(0) =~= Seq::<u64>::empty());
        }
        while i < self.pending.len()
            invariant
                i <= p.len(),
                self.pending@ == p,
                old(self).pending@ == p,
                self.next_id == old(self).spec_next_id(),
                self.open == old(self).is_open(),
                old(self).wf(),
                spec_remove_id(p, id) == kept@ + spec_remove_id(p.skip(i as int), id),
                found == p.take(i as int).contains(id),
                forall|y: u64| kept@.contains(y) ==> p.take(i as int).contains(y),
                forall|j: int, k: int| 0 <= j < k < kept@.len() ==> kept@[j] != kept@[k],
                forall|j: int| 0 <= j < kept@.len() ==> kept@[j] != id,
                forall|j: int| 0 <= j < kept@.len() ==> kept@[j] < self.next_id,
            decreases p.len() - i,
        {
            let ghost kept0 = kept@;
            let x = self.pending[i];
            proof {
                assert(p.skip(i as int)[0] == x);
                assert(p.skip(i as int).drop_first() =~= p.skip(i as int + 1));
                lemma_remove_id_contains(p.skip(i as int + 1), id);
                assert(p.take(i as int + 1) =~= p.take(i as int).push(x));
                assert forall|y: u64|
                    p.take(i as int).push(x).contains(y) <==> (p.take(i as int).contains(y) || y
                        == x) by {
                    let q = p.take(i as int);
                    if q.push(x).contains(y) {
                        let j = choose|j: int| 0 <= j < q.push(x).len() && q.push(x)[j] == y;
                        if j < q.len() {
                            assert(q.contains(y));
                        }
                    }
                    if q.contains(y) {
                        let j = choose|j: int| 0 <= j < q.len() && q[j] == y;
                        assert(q.push(x)[j] == y);
                    }
                    if y == x {
                        assert(q.push(x)[q.len() as int] == y);
                    }
                }
            }
            if x == id {
                found = true;
                proof {
                    assert forall|y: u64| kept@.contains(y) implies p.take(
                        i as int + 1,
                    ).contains(y) by {
                        assert(p.take(i as int).contains(y));
                        assert(p.take(i as int).push(x).contains(y));
                    }
                }
            } else {
                proof {
                    // x is not yet among the kept ids: p's ids are unique
                    if kept0.contains(x) {
                        let l = choose|l: int| 0 <= l < p.take(i as int).len() && p.take(
                            i as int,
                        )[l] == x;
                        assert(p[l] == x && p[i as int] == x && l < i as int);
                    }
                    assert(p[i as int] == x && x < self.next_id);
                }
                kept.push(x);
                proof {
                    assert(kept@ =~= kept0 + seq![x]);
                    assert(kept0 + (seq![x] + spec_remove_id(p.skip(i as int + 1), id)) =~= kept@
                        + spec_remove_id(p.skip(i as int + 1), id));
                    assert forall|y: u64|
                        kept@.contains(y) <==> (kept0.contains(y) || y == x) by {
                        if kept@.contains(y) {
                            let j = choose|j: int| 0 <= j < kept@.len() && kept@[j] == y;
                            if j < kept0.len() {
                                assert(kept0.contains(y));
                            }
                        }
                        if kept0.contains(y) {
                            let j = choose|j: int| 0 <= j < kept0.len() && kept0[j] == y;
                            assert(kept@[j] == y);
                        }
                        if y == x {
                            assert(kept@[kept0.len() as int] == y);
                        }
                    }
                    assert(forall|j: int| 0 <= j < kept@.len() ==> kept0.contains(kept@[j])
                        || kept@[j] == x);
                    assert forall|y: u64| kept@.contains(y) implies p.take(
                        i as int + 1,
                    ).contains(y) by {
                        vstd::seq_lib::lemma_seq_contains_after_push(p.take(i as int), x, y);
                        if kept0.contains(y) {
                            assert(p.take(i as int).contains(y));
                        } else {
                            assert(y == x);
                        }
                        assert(p.take(i as int).push(x).contains(y));
                    }
                }
            }
            i = i + 1;
        }
        proof {
            assert(p.skip(p.len() as int) =~= Seq::<u64>::empty());
            assert(kept@ + spec_remove_id(p.skip(p.len() as int), id) =~= kept@);
            assert(p.take(p.len() as int) =~= p);
        }
        self.pending = kept;
        found
    }

    /// Closes the stream: every pending slot is handed back (so each of
    /// its callers can be completed with `ChannelClosed`), the pending
    /// set empties, and the stream is marked closed.
    pub fn close_all(&mut self) -> (r: Vec<u64>)
        requires
            old(self).wf(),
        ensures
            final(self).wf(),
            r@ == old(self).pending_ids(),
            final(self).pending_ids() == Seq::<u64>::empty(),
            final(self).spec_next_id() == old(self).spec_next_id(),
            !final(self).is_open(),
    {
        self.open = false;
        let mut drained: Vec<u64> = Vec::new();
        core::mem::swap(&mut drained, &mut self.pending);
        drained
    }
}

/// What the multiplexer does with one inbound frame.
#[derive(Clone, Copy, Debug, PartialEq, Eq, Structural)]
pub enum InboundDisposition {
    /// A response to the pending call with this id: complete its slot.
    ResolveSlot(u64),
    /// A response whose id is no longer pending (a cancelled or already
    /// completed call): log and discard.
    Discard(u64),
    /// A frame with no id: a notification for the sideband.
    Notification,
}

impl RpcCore {
    /// Routes one inbound frame by its correlation id (`None` for a
    /// frame without one): a pending id resolves its slot exactly once,
    /// an unknown or repeated id is discarded, and an id-less frame is
    /// a notification. Only a resolution changes the pending set.
    pub fn dispatch_inbound(&mut self, id: Option<u64>) -> (r: InboundDisposition)
        requires
            old(self).wf(),
        ensures
            final(self).wf(),
            final(self).spec_next_id() == old(self).spec_next_id(),
            final(self).is_open() == old(self).is_open(),
            (match id {
                Some(i) => {
                    &&& final(self).pending_ids() == spec_resolve(old(self).pending_ids(), i).0
                    &&& r == (if old(self).pending_ids().contains(i) {
                        InboundDisposition::ResolveSlot(i)
                    } else {
                        InboundDisposition::Discard(i)
                    })
                },
                None => r == InboundDisposition::Notification && final(self).pending_ids() == old(
                    self,
                ).pending_ids(),
            }),
    {
        match id {
            Some(i) => {
                if self.resolve(i) {
                    InboundDisposition::ResolveSlot(i)
                } else {
                    InboundDisposition::Discard(i)
                }
            },
            None => InboundDisposition::Notification,
        }
    }
}

/// Whether a character is a decimal digit.
pub open spec fn spec_is_digit(c: char) -> bool {
    48 <= c as u32 <= 57
}

/// The numeric value of a digit sequence, most significant first.
pub open spec fn spec_dec_value(s: Seq<char>) -> int
    decreases s.len(),
{
    if s.len() == 0 {
        0
    } else {
        spec_dec_value(s.drop_last()) * 10 + (s.last() as u32 - 48)
    }
}

/// The trailing run of digit characters of `s`.
pub open spec fn spec_digit_suffix(s: Seq<char>) -> Seq<char>
    decreases s.len(),
{
    if s.len() > 0 && spec_is_digit(s.last()) {
        spec_digit_suffix(s.drop_last()).push(s.last())
    } else {
        seq![]
    }
}

/// The request id a wire frame carries: the digit run just before the
/// closing brace.
pub open spec fn spec_frame_id(t: Seq<char>) -> Option<u64> {
    if t.len() > 0 && t.last() == '}' && spec_digit_suffix(t.drop_last()).len() > 0
        && spec_dec_value(spec_digit_suffix(t.drop_last())) <= u64::MAX {
        Some(spec_dec_value(spec_digit_suffix(t.drop_last())) as u64)
    } else {
        None
    }
}

proof fn lemma_dec_digits(n: u64)
    ensures
        spec_u64_dec(n).len() > 0,
        forall|i: int| 0 <= i < spec_u64_dec(n).len() ==> spec_is_digit(#[trigger] spec_u64_dec(
            n,
        )[i]),
    decreases n,
{
    if n < 10 {
        assert(spec_is_digit(spec_digit_char(n)));
    } else {
        lemma_dec_digits(n / 10);
        assert(spec_is_digit(spec_digit_char(n % 10)));
        assert(forall|i: int|
            0 <= i < spec_u64_dec(n / 10).len() ==> spec_u64_dec(n)[i] == spec_u64_dec(n / 10)[i]);
    }
}

proof fn lemma_dec_value_inverse(n: u64)
    ensures
        spec_dec_value(spec_u64_dec(n)) == n,
    decreases n,
{
    reveal_with_fuel(spec_dec_value, 3);
    if n < 10 {
        assert(spec_u64_dec(n).last() == spec_digit_char(n));
        assert(spec_u64_dec(n).drop_last() =~= Seq::<char>::empty());
        assert(spec_digit_char(n) as u32 - 48 == n);
    } else {
        lemma_dec_value_inverse(n / 10);
        assert(spec_u64_dec(n) == spec_u64_dec(n / 10).push(spec_digit_char(n % 10)));
        assert(spec_u64_dec(n).len() > 0);
        assert(spec_u64_dec(n).drop_last() =~= spec_u64_dec(n / 10));
        assert(spec_u64_dec(n).last() == spec_digit_char(n % 10));
        assert(spec_digit_char(n % 10) as u32 - 48 == n % 10);
        assert(spec_dec_value(spec_u64_dec(n)) == (n / 10) * 10 + n % 10);
        assert((n / 10) * 10 + n % 10 == n) by {
            vstd::arithmetic::div_mod::lemma_fundamental_div_mod(n as int, 10);
        }
    }
}

proof fn lemma_digit_suffix_concat(a: Seq<char>, d: Seq<char>)
    requires
        a.len() > 0,
        !spec_is_digit(a.last()),
        forall|i: int| 0 <= i < d.len() ==> spec_is_digit(#[trigger] d[i]),
    ensures
        spec_digit_suffix(a + d) == d,
    decreases d.len(),
{
    if d.len() == 0 {
        assert(a + d =~= a);
        assert(spec_digit_suffix(a) =~= Seq::<char>::empty());
    } else {
        lemma_digit_suffix_concat(a, d.drop_last());
        assert((a + d).drop_last() =~= a + d.drop_last());
        assert((a + d).last() == d.last());
        assert(spec_digit_suffix(a + d) =~= d.drop_last().push(d.last()));
        assert(d.drop_last().push(d.last()) =~= d);
    }
}

/// The id round trip of the wire framing: the id written into any
/// request frame is exactly the one read back out of it, whatever the
/// method and parameter text were.
pub proof fn lemma_frame_id_round_trip(method: Seq<char>, params_json: Seq<char>, id: u64)
    ensures
        spec_frame_id(spec_request_text(method, params_json, id)) == Some(id),
{
    let t = spec_request_text(method, params_json, id);
    let a = "{\"jsonrpc\":\"2.0\",\"method\":\""@ + method + "\",\"params\":"@ + params_json
        + ",\"id\":"@;
    reveal_strlit(",\"id\":");
    reveal_strlit("}");
    assert(t =~= a + spec_u64_dec(id) + "}"@);
    assert(t.last() == '}') by {
        assert("}"@.len() == 1);
        assert(t[t.len() - 1] == "}"@[0]);
    }
    assert(t.drop_last() =~= a + spec_u64_dec(id));
    assert(a.last() == ':') by {
        assert(",\"id\":"@.len() == 6);
        assert(a[a.len() - 1] == ",\"id\":"@[5]);
    }
    assert(!spec_is_digit(a.last()));
    lemma_dec_digits(id);
    lemma_digit_suffix_concat(a, spec_u64_dec(id));
    lemma_dec_value_inverse(id);
}

/// The index of the first double quote in `t` at or after `i`, or the
/// text's length if none follows.
pub open spec fn spec_quote_from(t: Seq<char>, i: int) -> int
    decreases t.len() - i,
{
    if 0 <= i < t.len() {
        if t[i] == '"' {
            i
        } else {
            spec_quote_from(t, i + 1)
        }
    } else {
        t.len() as int
    }
}

/// The method name a wire frame carries: the text between the fixed
/// frame opening and the quote that closes it.
pub open spec fn spec_frame_method(t: Seq<char>) -> Seq<char> {
    let start = "{\"jsonrpc\":\"2.0\",\"method\":\""@.len() as int;
    if start <= t.len() {
        t.subrange(start, spec_quote_from(t, start))
    } else {
        Seq::<char>::empty()
    }
}

proof fn lemma_first_quote(t: Seq<char>, i: int, end: int)
    requires
        0 <= i <= end < t.len(),
        t[end] == '"',
        forall|j: int| i <= j < end ==> t[j] != '"',
    ensures
        spec_quote_from(t, i) == end,
    decreases end - i,
{
    if i < end {
        lemma_first_quote(t, i + 1, end);
    }
}

/// The method round trip of the wire framing: for a method that needs
/// no JSON escaping (the appliance's method names never do), the method
/// written into any request frame is exactly the one read back out of
/// it, whatever the parameter text and id were.
pub proof fn lemma_frame_method_round_trip(method: Seq<char>, params_json: Seq<char>, id: u64)
    requires
        forall|j: int| 0 <= j < method.len() ==> method[j] != '"',
    ensures
        spec_frame_method(spec_request_text(method, params_json, id)) == method,
{
    let pre = "{\"jsonrpc\":\"2.0\",\"method\":\""@;
    let t = spec_request_text(method, params_json, id);
    let start = pre.len() as int;
    let tail = "\",\"params\":"@ + params_json + ",\"id\":"@ + spec_u64_dec(id) + "}"@;
    assert(t =~= pre + method + tail);
    reveal_strlit("\",\"params\":");
    assert(tail[0] == '"') by {
        assert(tail[0] == "\",\"params\":"@[0]);
    }
    assert(forall|j: int| 0 <= j < method.len() ==> t[start + j] == method[j]);
    assert(t[start + method.len()] == '"');
    assert(forall|j: int| start <= j < start + method.len() ==> t[j] != '"');
    lemma_first_quote(t, start, start + method.len());
    assert(t.subrange(start, start + method.len()) =~= method);
}

} // verus!
