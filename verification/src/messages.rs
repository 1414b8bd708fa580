//! The message store: an append-only per-recipient message log with
//! per-message escrowed value, batched claim and batched delete with
//! refund, and bounded-window reverse-chronological pagination.

use vstd::prelude::*;
use crate::elements::{Message, MessageView};
use crate::funds::{Coin, merge_coins, merge_coins_into, sum_amounts};
use crate::host::{BankTransfer, MessageInfo};
use crate::msg::{MessagesExecuteMsg, MessagesInstantiateMsg};
use crate::ownership::{Action, Ownership, OwnershipError, update_ownership_post};
use crate::query::{MessageResponse, MessagesQueryMsg, MessagesResponse, TotalMessagesResponse};

verus! {

/// Why a message store operation was refused.
#[derive(Debug, PartialEq, Eq)]
pub enum MessagesError {
    /// An owner-gated operation was called by someone other than the owner.
    Ownership(OwnershipError),
    /// A supplied index points past the end of the caller's log.
    NoMessage,
    /// The address has never received a message, so it has no log.
    NoLog,
}

/// Pagination bounds: the page size used when a query names none, and the
/// cap no query may exceed.
#[derive(Clone, Copy, Debug, PartialEq, Eq)]
pub struct Config {
    pub default_query_limit: u64,
    pub max_query_limit: u64,
}

/// One recipient's message log.
pub struct UserMessages {
    pub address: String,
    pub messages: Vec<Message>,
}

/// The message store service: its pagination bounds, its owner slot, and
/// every recipient's log.
pub struct MessageStore {
    pub config: Config,
    pub ownership: Ownership,
    pub logs: Vec<UserMessages>,
}

impl MessageStore {
    /// Each recipient has at most one log.
    pub open spec fn wf(&self) -> bool {
        forall|i: int, j: int|
            0 <= i < j < self.logs@.len() ==> self.logs@[i].address@ != self.logs@[j].address@
    }

    /// Whether `addr` has a log.
    pub open spec fn has_log(&self, addr: Seq<char>) -> bool {
        exists|i: int| 0 <= i < self.logs@.len() && self.logs@[i].address@ == addr
    }

    /// The slot holding the log of `addr`.
    pub open spec fn log_index(&self, addr: Seq<char>) -> int {
        choose|i: int| 0 <= i < self.logs@.len() && self.logs@[i].address@ == addr
    }

    /// The log of `addr`; the empty sequence when none exists.
    pub open spec fn log_of(&self, addr: Seq<char>) -> Seq<MessageView> {
        if self.has_log(addr) {
            self.logs@[self.log_index(addr)].messages.deep_view()
        } else {
            Seq::empty()
        }
    }

    /// In a well-formed store, the slot holding `addr` is unique, so any
    /// slot with that address is the one `log_of` reads.
    pub proof fn lemma_log_at(&self, i: int)
        requires
            self.wf(),
            0 <= i < self.logs@.len(),
        ensures
            self.has_log(self.logs@[i].address@),
            self.log_index(self.logs@[i].address@) == i,
            self.log_of(self.logs@[i].address@) == self.logs@[i].messages.deep_view(),
    {
        let addr = self.logs@[i].address@;
        assert(self.has_log(addr));
        let k = self.log_index(addr);
        assert(0 <= k < self.logs@.len() && self.logs@[k].address@ == addr);
        if k < i {
            assert(self.logs@[k].address@ != self.logs@[i].address@);
        } else if i < k {
            assert(self.logs@[i].address@ != self.logs@[k].address@);
        }
    }

    /// The slot holding the log of `addr`, when there is one.
    fn find_log(&self, addr: &String) -> (r: Option<usize>)
        requires
            self.wf(),
        ensures
            match r {
                Some(i) => {
                    &&& i < self.logs@.len()
                    &&& self.logs@[i as int].address@ == addr@
                    &&& self.has_log(addr@)
                    &&& self.log_index(addr@) == i
                },
                None => !self.has_log(addr@),
            },
    {
        let n = self.logs.len();
        let mut i: usize = 0;
        while i < n
            invariant
                i <= n,
                n == self.logs@.len(),
                self.wf(),
                forall|k: int| 0 <= k < i ==> self.logs@[k].address@ != addr@,
            decreases n - i,
        {
            if self.logs[i].address == *addr {
                proof {
                    self.lemma_log_at(i as int);
                }
                return Some(i);
            }
            i = i + 1;
        }
        None
    }

    /// A fresh store with the given pagination bounds, owned by the caller
    /// that provisioned it, holding no logs at all.
    pub fn instantiate(info: MessageInfo, msg: MessagesInstantiateMsg) -> (r: MessageStore)
        ensures
            r.wf(),
            r.ownership.owner == Some(info.sender),
            r.ownership.pending_owner is None,
            r.config == (Config {
                default_query_limit: msg.default_query_limit,
                max_query_limit: msg.max_query_limit,
            }),
            r.logs@.len() == 0,
            forall|a: Seq<char>| !r.has_log(a) && r.log_of(a) == Seq::<MessageView>::empty(),
    {
        MessageStore {
            config: Config {
                default_query_limit: msg.default_query_limit,
                max_query_limit: msg.max_query_limit,
            },
            ownership: Ownership::new(info.sender),
            logs: Vec::new(),
        }
    }
}

/// Frame fact: when one slot's messages change but its address does not and
/// every other slot is untouched, only that address's log changes.
pub proof fn lemma_one_slot_changed(pre: MessageStore, post: MessageStore, i: int)
    requires
        pre.wf(),
        0 <= i < pre.logs@.len(),
        post.logs@.len() == pre.logs@.len(),
        post.logs@[i].address == pre.logs@[i].address,
        forall|k: int| 0 <= k < pre.logs@.len() && k != i ==> post.logs@[k] == pre.logs@[k],
    ensures
        post.wf(),
        post.has_log(pre.logs@[i].address@),
        post.log_of(pre.logs@[i].address@) == post.logs@[i].messages.deep_view(),
        pre.log_of(pre.logs@[i].address@) == pre.logs@[i].messages.deep_view(),
        forall|a: Seq<char>|
            a != pre.logs@[i].address@ ==> post.has_log(a) == pre.has_log(a) && post.log_of(a)
                == pre.log_of(a),
{
    let addr = pre.logs@[i].address@;
    assert(forall|k: int|
        0 <= k < post.logs@.len() ==> post.logs@[k].address@ == pre.logs@[k].address@);
    pre.lemma_log_at(i);
    post.lemma_log_at(i);
    assert forall|a: Seq<char>| a != addr implies post.has_log(a) == pre.has_log(a)
        && post.log_of(a) == pre.log_of(a) by {
        if pre.has_log(a) {
            let k = pre.log_index(a);
            assert(0 <= k < pre.logs@.len() && pre.logs@[k].address@ == a);
            assert(k != i);
            pre.lemma_log_at(k);
            post.lemma_log_at(k);
        } else if post.has_log(a) {
            let k = post.log_index(a);
            assert(0 <= k < post.logs@.len() && post.logs@[k].address@ == a);
            assert(pre.logs@[k].address@ == a);
            assert(pre.has_log(a));
        }
    }
}

/// Frame fact: appending a slot for a new address leaves every other
/// address's log unchanged.
pub proof fn lemma_slot_appended(pre: MessageStore, post: MessageStore)
    requires
        pre.wf(),
        post.logs@.len() == pre.logs@.len() + 1,
        forall|k: int| 0 <= k < pre.logs@.len() ==> post.logs@[k] == pre.logs@[k],
        !pre.has_log(post.logs@[pre.logs@.len() as int].address@),
    ensures
        post.wf(),
        post.has_log(post.logs@[pre.logs@.len() as int].address@),
        post.log_of(post.logs@[pre.logs@.len() as int].address@) == post.logs@[pre.logs@.len() as int].messages.deep_view(),
        pre.log_of(post.logs@[pre.logs@.len() as int].address@) == Seq::<MessageView>::empty(),
        forall|a: Seq<char>|
            a != post.logs@[pre.logs@.len() as int].address@ ==> post.has_log(a) == pre.has_log(a)
                && post.log_of(a) == pre.log_of(a),
{
    let n = pre.logs@.len() as int;
    let addr = post.logs@[n].address@;
    assert(post.wf()) by {
        assert forall|i: int, j: int|
            0 <= i < j < post.logs@.len() implies post.logs@[i].address@ != post.logs@[j].address@ by {
            if j < n {
                assert(pre.logs@[i].address@ != pre.logs@[j].address@);
            } else {
                assert(post.logs@[i] == pre.logs@[i]);
                assert(!pre.has_log(addr));
                assert(pre.logs@[i].address@ != addr);
            }
        }
    }
    post.lemma_log_at(n);
    assert forall|a: Seq<char>| a != addr implies post.has_log(a) == pre.has_log(a)
        && post.log_of(a) == pre.log_of(a) by {
        if pre.has_log(a) {
            let k = pre.log_index(a);
            assert(0 <= k < pre.logs@.len() && pre.logs@[k].address@ == a);
            pre.lemma_log_at(k);
            post.lemma_log_at(k);
        } else if post.has_log(a) {
            let k = post.log_index(a);
            assert(0 <= k < post.logs@.len() && post.logs@[k].address@ == a);
            if k < n {
                assert(pre.has_log(a));
            } else {
                assert(a == addr);
            }
        }
    }
}

/// Whether every supplied index points into a log of length `n`.
pub open spec fn ids_valid(ids: Seq<u64>, n: nat) -> bool {
    forall|k: int| 0 <= k < ids.len() ==> ids[k] < n
}

/// Position of the first out-of-range index in `ids`, or `ids.len()` when
/// every index points into a log of length `n`.
pub open spec fn first_invalid(ids: Seq<u64>, n: nat) -> int
    decreases ids.len(),
{
    if ids.len() == 0 {
        0
    } else if ids[0] >= n {
        0
    } else {
        1 + first_invalid(ids.subrange(1, ids.len() as int), n)
    }
}

/// `first_invalid` points at the first out-of-range index; everything
/// before it is in range.
pub proof fn lemma_first_invalid(ids: Seq<u64>, n: nat)
    ensures
        0 <= first_invalid(ids, n) <= ids.len(),
        (first_invalid(ids, n) == ids.len()) <==> ids_valid(ids, n),
        forall|k: int| 0 <= k < first_invalid(ids, n) ==> ids[k] < n,
        first_invalid(ids, n) < ids.len() ==> ids[first_invalid(ids, n)] >= n,
    decreases ids.len(),
{
    if ids.len() == 0 {
    } else if ids[0] >= n {
    } else {
        let tail = ids.subrange(1, ids.len() as int);
        lemma_first_invalid(tail, n);
        assert forall|k: int| 0 <= k < first_invalid(ids, n) implies ids[k] < n by {
            if k >= 1 {
                assert(ids[k] == tail[k - 1]);
            }
        }
        if first_invalid(tail, n) == tail.len() {
            assert forall|k: int| 0 <= k < ids.len() implies ids[k] < n by {
                if k >= 1 {
                    assert(ids[k] == tail[k - 1]);
                }
            }
        }
        if first_invalid(tail, n) < tail.len() {
            assert(ids[first_invalid(ids, n)] == tail[first_invalid(tail, n)]);
        }
    }
}

/// The message at `i` with its escrow emptied; the rest of the log
/// untouched.
pub open spec fn clear_at(log: Seq<MessageView>, i: int) -> Seq<MessageView> {
    log.update(
        i,
        MessageView { sender: log[i].sender, content: log[i].content, funds: Seq::empty() },
    )
}

/// The funds a batched claim over `ids` gathers, merged left to right into
/// `acc`. Each listed message's escrow is emptied as soon as it is
/// gathered, so an index listed twice contributes only once.
pub open spec fn claimed_funds(acc: Seq<Coin>, log: Seq<MessageView>, ids: Seq<u64>) -> Seq<Coin>
    decreases ids.len(),
{
    if ids.len() == 0 {
        acc
    } else {
        claimed_funds(
            merge_coins(acc, log[ids[0] as int].funds),
            clear_at(log, ids[0] as int),
            ids.subrange(1, ids.len() as int),
        )
    }
}

/// The log after a batched claim over `ids`: every listed message's escrow
/// emptied, everything else untouched.
pub open spec fn claimed_log(log: Seq<MessageView>, ids: Seq<u64>) -> Seq<MessageView>
    decreases ids.len(),
{
    if ids.len() == 0 {
        log
    } else {
        claimed_log(clear_at(log, ids[0] as int), ids.subrange(1, ids.len() as int))
    }
}

/// Processing one more index at the end of the batch gathers that
/// message's remaining escrow and clears it.
pub proof fn lemma_claim_snoc(acc: Seq<Coin>, log: Seq<MessageView>, ids: Seq<u64>, x: u64)
    ensures
        claimed_log(log, ids.push(x)) == clear_at(claimed_log(log, ids), x as int),
        claimed_funds(acc, log, ids.push(x)) == merge_coins(
            claimed_funds(acc, log, ids),
            claimed_log(log, ids)[x as int].funds,
        ),
    decreases ids.len(),
{
    let p = ids.push(x);
    if ids.len() == 0 {
        assert(p[0] == x);
        assert(p.subrange(1, p.len() as int) =~= Seq::<u64>::empty());
        assert(claimed_log(log, p) == claimed_log(
            clear_at(log, x as int),
            p.subrange(1, p.len() as int),
        ));
        assert(claimed_log(clear_at(log, x as int), Seq::<u64>::empty()) == clear_at(
            log,
            x as int,
        ));
        assert(claimed_funds(acc, log, p) == claimed_funds(
            merge_coins(acc, log[x as int].funds),
            clear_at(log, x as int),
            p.subrange(1, p.len() as int),
        ));
    } else {
        let tail = ids.subrange(1, ids.len() as int);
        assert(p[0] == ids[0]);
        assert(p.subrange(1, p.len() as int) =~= tail.push(x));
        lemma_claim_snoc(
            merge_coins(acc, log[ids[0] as int].funds),
            clear_at(log, ids[0] as int),
            tail,
            x,
        );
        assert(claimed_log(log, p) == claimed_log(
            clear_at(log, ids[0] as int),
            tail.push(x),
        ));
        assert(claimed_funds(acc, log, p) == claimed_funds(
            merge_coins(acc, log[ids[0] as int].funds),
            clear_at(log, ids[0] as int),
            tail.push(x),
        ));
    }
}

/// Everything still escrowed in a log, totalled across all messages and
/// denominations.
pub open spec fn sum_escrow(log: Seq<MessageView>) -> int
    decreases log.len(),
{
    if log.len() == 0 {
        0
    } else {
        sum_amounts(log[0].funds) + sum_escrow(log.subrange(1, log.len() as int))
    }
}

/// The escrow total is never negative.
pub proof fn lemma_sum_escrow_nonneg(log: Seq<MessageView>)
    ensures
        sum_escrow(log) >= 0,
    decreases log.len(),
{
    if log.len() > 0 {
        crate::funds::lemma_sum_amounts_nonneg(log[0].funds);
        lemma_sum_escrow_nonneg(log.subrange(1, log.len() as int));
    }
}

/// One message's escrow is bounded by the log's escrow total.
pub proof fn lemma_sum_escrow_elem(log: Seq<MessageView>, i: int)
    requires
        0 <= i < log.len(),
    ensures
        sum_amounts(log[i].funds) <= sum_escrow(log),
    decreases log.len(),
{
    let tail = log.subrange(1, log.len() as int);
    if i == 0 {
        lemma_sum_escrow_nonneg(tail);
    } else {
        crate::funds::lemma_sum_amounts_nonneg(log[0].funds);
        lemma_sum_escrow_elem(tail, i - 1);
        assert(tail[i - 1] == log[i]);
    }
}

/// Replacing one message changes the escrow total by the difference of the
/// two escrows.
pub proof fn lemma_sum_escrow_update(log: Seq<MessageView>, i: int, m: MessageView)
    requires
        0 <= i < log.len(),
    ensures
        sum_escrow(log.update(i, m)) == sum_escrow(log) - sum_amounts(log[i].funds)
            + sum_amounts(m.funds),
    decreases log.len(),
{
    let tail = log.subrange(1, log.len() as int);
    if i == 0 {
        assert(log.update(0, m).subrange(1, log.len() as int) =~= tail);
    } else {
        lemma_sum_escrow_update(tail, i - 1, m);
        assert(log.update(i, m).subrange(1, log.len() as int) =~= tail.update(i - 1, m));
    }
}

/// Gather the still-escrowed funds of the messages listed in `message_ids`
/// into `funds`, left to right, emptying each message's escrow as it is
/// gathered.
///
/// Indices are processed strictly left to right: everything before the
/// first out-of-range index is gathered and cleared before the batch is
/// refused with `NoMessage`.
pub fn create_funds_array(
    funds: &mut Vec<Coin>,
    messages: &mut Vec<Message>,
    message_ids: &Vec<u64>,
) -> (r: Result<(), MessagesError>)
    requires
        sum_amounts(old(funds)@) + sum_escrow(old(messages).deep_view()) <= u128::MAX,
    ensures
        final(messages)@.len() == old(messages)@.len(),
        ({
            let k = first_invalid(message_ids@, old(messages)@.len());
            &&& final(funds)@ == claimed_funds(
                old(funds)@,
                old(messages).deep_view(),
                message_ids@.take(k),
            )
            &&& final(messages).deep_view() == claimed_log(
                old(messages).deep_view(),
                message_ids@.take(k),
            )
        }),
        r is Ok <==> ids_valid(message_ids@, old(messages)@.len()),
        r is Err ==> r == Err::<(), MessagesError>(MessagesError::NoMessage),
{
    let ghost funds0 = funds@;
    let ghost log0 = messages.deep_view();
    let len = messages.len();
    let n = message_ids.len();
    proof {
        lemma_first_invalid(message_ids@, len as nat);
        assert(message_ids@.take(0) =~= Seq::<u64>::empty());
    }
    let mut k: usize = 0;
    while k < n
        invariant
            k <= n,
            n == message_ids@.len(),
            len == messages@.len(),
            len == log0.len(),
            funds0 == old(funds)@,
            log0 == old(messages).deep_view(),
            sum_amounts(funds0) + sum_escrow(log0) <= u128::MAX,
            forall|j: int| 0 <= j < k ==> message_ids@[j] < len,
            funds@ == claimed_funds(funds0, log0, message_ids@.take(k as int)),
            messages.deep_view() == claimed_log(log0, message_ids@.take(k as int)),
            sum_amounts(funds@) + sum_escrow(messages.deep_view()) == sum_amounts(funds0)
                + sum_escrow(log0),
        decreases n - k,
    {
        let id = message_ids[k];
        if id >= (len as u64) {
            proof {
                lemma_first_invalid(message_ids@, len as nat);
                let fi = first_invalid(message_ids@, len as nat);
                if fi < k {
                    assert(message_ids@[fi] < len);
                } else if fi > k {
                    assert(message_ids@[k as int] < len);
                }
            }
            return Err(MessagesError::NoMessage);
        }
        let idx = id as usize;
        let ghost prev_funds = funds@;
        let ghost prev_log = messages.deep_view();
        proof {
            assert(prev_log[id as int].funds == messages@[id as int].funds@);
            lemma_sum_escrow_elem(prev_log, id as int);
        }
        merge_coins_into(funds, &messages[idx].funds);
        let slot = &mut messages[idx];
        slot.funds = Vec::new();
        proof {
            assert(messages.deep_view() =~= clear_at(prev_log, id as int));
            assert(message_ids@.take(k as int + 1) =~= message_ids@.take(k as int).push(id));
            lemma_claim_snoc(funds0, log0, message_ids@.take(k as int), id);
            crate::funds::lemma_merge_coins_sum(prev_funds, prev_log[id as int].funds);
            lemma_sum_escrow_update(
                prev_log,
                id as int,
                MessageView {
                    sender: prev_log[id as int].sender,
                    content: prev_log[id as int].content,
                    funds: Seq::empty(),
                },
            );
        }
        k = k + 1;
    }
    proof {
        lemma_first_invalid(message_ids@, len as nat);
        assert(message_ids@.take(n as int) =~= message_ids@);
    }
    Ok(())
}

/// Refuse a batch whose indices do not all point into a log of length
/// `len`, without touching anything.
fn check_ids(message_ids: &Vec<u64>, len: usize) -> (r: Result<(), MessagesError>)
    ensures
        r is Ok <==> ids_valid(message_ids@, len as nat),
        r is Err ==> r == Err::<(), MessagesError>(MessagesError::NoMessage),
{
    let n = message_ids.len();
    let mut k: usize = 0;
    while k < n
        invariant
            k <= n,
            n == message_ids@.len(),
            forall|j: int| 0 <= j < k ==> message_ids@[j] < len,
        decreases n - k,
    {
        if message_ids[k] >= (len as u64) {
            return Err(MessagesError::NoMessage);
        }
        k = k + 1;
    }
    Ok(())
}

/// Whether `ids` lists the position `x`.
fn ids_contain(ids: &Vec<u64>, x: u64) -> (r: bool)
    ensures
        r == ids@.contains(x),
{
    let n = ids.len();
    let mut k: usize = 0;
    while k < n
        invariant
            k <= n,
            n == ids@.len(),
            forall|j: int| 0 <= j < k ==> ids@[j] != x,
        decreases n - k,
    {
        if ids[k] == x {
            return true;
        }
        k = k + 1;
    }
    false
}

/// The log with every message whose original position is listed removed;
/// the positions are the original ones, whatever order or duplication the
/// list has, so no removal shifts what a later listed position means.
pub open spec fn retain_unlisted(log: Seq<MessageView>, ids: Seq<u64>) -> Seq<MessageView>
    decreases log.len(),
{
    if log.len() == 0 {
        Seq::empty()
    } else {
        let init = retain_unlisted(log.drop_last(), ids);
        if ids.contains((log.len() - 1) as u64) {
            init
        } else {
            init.push(log.last())
        }
    }
}

/// How many positions of a log of length `n` the list selects; a position
/// listed twice counts once.
pub open spec fn count_selected(n: nat, ids: Seq<u64>) -> nat
    decreases n,
{
    if n == 0 {
        0
    } else {
        count_selected((n - 1) as nat, ids) + if ids.contains((n - 1) as u64) {
            1nat
        } else {
            0nat
        }
    }
}

/// Removing the listed positions leaves the log shorter by exactly the
/// number of distinct positions selected.
pub proof fn lemma_retain_unlisted_len(log: Seq<MessageView>, ids: Seq<u64>)
    ensures
        count_selected(log.len(), ids) <= log.len(),
        retain_unlisted(log, ids).len() == log.len() - count_selected(log.len(), ids),
    decreases log.len(),
{
    if log.len() > 0 {
        lemma_retain_unlisted_len(log.drop_last(), ids);
    }
}

/// After a batched claim, a listed message keeps its sender and content
/// with an emptied escrow, and an unlisted one is untouched.
pub proof fn lemma_claimed_log_pointwise(log: Seq<MessageView>, ids: Seq<u64>)
    requires
        ids_valid(ids, log.len()),
        log.len() <= u64::MAX,
    ensures
        claimed_log(log, ids).len() == log.len(),
        forall|i: int|
            0 <= i < log.len() && !ids.contains(i as u64) ==> claimed_log(log, ids)[i] == log[i],
        forall|i: int|
            0 <= i < log.len() && ids.contains(i as u64) ==> claimed_log(log, ids)[i] == (
            MessageView { sender: log[i].sender, content: log[i].content, funds: Seq::empty() }),
    decreases ids.len(),
{
    if ids.len() > 0 {
        let j = ids[0] as int;
        let log1 = clear_at(log, j);
        let tail = ids.subrange(1, ids.len() as int);
        assert(forall|k: int| 0 <= k < tail.len() ==> tail[k] == ids[k + 1]);
        lemma_claimed_log_pointwise(log1, tail);
        assert forall|v: u64| #[trigger] ids.contains(v) implies v as int == j || tail.contains(
            v,
        ) by {
            let w = choose|w: int| 0 <= w < ids.len() && ids[w] == v;
            if w >= 1 {
                assert(tail[w - 1] == v);
            }
        }
        assert forall|v: u64| tail.contains(v) implies ids.contains(v) by {
            let w = choose|w: int| 0 <= w < tail.len() && tail[w] == v;
            assert(ids[w + 1] == v);
        }
        assert(ids.contains(ids[0]));
        assert forall|i: int|
            0 <= i < log.len() && !ids.contains(i as u64) implies claimed_log(log, ids)[i]
            == log[i] by {
            assert(!tail.contains(i as u64));
            assert(i != j);
            assert(log1[i] == log[i]);
        }
        assert forall|i: int|
            0 <= i < log.len() && ids.contains(i as u64) implies claimed_log(log, ids)[i] == (
        MessageView {
            sender: log[i].sender,
            content: log[i].content,
            funds: Seq::empty(),
        }) by {
            if tail.contains(i as u64) {
                assert(log1[i].sender == log[i].sender && log1[i].content == log[i].content);
            } else {
                assert(i as u64 as int == i);
                assert(ids[0] as int == j);
                assert(i == j);
                assert(claimed_log(log, ids)[i] == log1[i]);
            }
        }
    }
}

/// Two logs of the same length that agree on every unlisted position keep
/// the same messages once the listed positions are removed.
pub proof fn lemma_retain_agree(a: Seq<MessageView>, b: Seq<MessageView>, ids: Seq<u64>)
    requires
        a.len() == b.len(),
        forall|i: int| 0 <= i < a.len() && !ids.contains(i as u64) ==> a[i] == b[i],
    ensures
        retain_unlisted(a, ids) == retain_unlisted(b, ids),
    decreases a.len(),
{
    if a.len() > 0 {
        assert forall|i: int|
            0 <= i < a.drop_last().len() && !ids.contains(i as u64) implies a.drop_last()[i]
            == b.drop_last()[i] by {
            assert(a.drop_last()[i] == a[i]);
            assert(b.drop_last()[i] == b[i]);
        }
        lemma_retain_agree(a.drop_last(), b.drop_last(), ids);
        if !ids.contains((a.len() - 1) as u64) {
            assert(a.last() == b.last());
        }
    }
}

/// How a send relates the store before the call to the store after it: the
/// owner appends one message carrying the attached funds as escrow; anyone
/// else is refused and nothing changes.
pub open spec fn send_message_post(
    pre: MessageStore,
    post: MessageStore,
    info: MessageInfo,
    sender: String,
    receiver: String,
    message: Vec<u8>,
    r: Result<(), MessagesError>,
) -> bool {
    &&& post.wf()
    &&& post.config == pre.config
    &&& post.ownership == pre.ownership
    &&& if pre.ownership.is_owner(info.sender@) {
        &&& r is Ok
        &&& post.has_log(receiver@)
        &&& post.log_of(receiver@) == pre.log_of(receiver@).push(
            MessageView { sender: sender@, content: message@, funds: info.funds@ },
        )
        &&& forall|a: Seq<char>|
            a != receiver@ ==> post.has_log(a) == pre.has_log(a) && post.log_of(a) == pre.log_of(
                a,
            )
    } else {
        &&& r == Err::<(), MessagesError>(
            MessagesError::Ownership(pre.ownership.owner_error()),
        )
        &&& post == pre
    }
}

/// How a batched claim relates the store before the call to the store
/// after it: on success the transfer merges everything the listed messages
/// still escrowed and those escrows are emptied; a missing log or an
/// out-of-range index refuses the batch and changes nothing.
pub open spec fn claim_post(
    pre: MessageStore,
    post: MessageStore,
    info: MessageInfo,
    message_ids: Vec<u64>,
    r: Result<BankTransfer, MessagesError>,
) -> bool {
    &&& post.wf()
    &&& post.config == pre.config
    &&& post.ownership == pre.ownership
    &&& post.has_log(info.sender@) == pre.has_log(info.sender@)
    &&& forall|a: Seq<char>|
        a != info.sender@ ==> post.has_log(a) == pre.has_log(a) && post.log_of(a) == pre.log_of(a)
    &&& match r {
        Ok(transfer) => {
            &&& pre.has_log(info.sender@)
            &&& ids_valid(message_ids@, pre.log_of(info.sender@).len())
            &&& transfer.to_address == info.sender
            &&& transfer.amount@ == claimed_funds(
                Seq::empty(),
                pre.log_of(info.sender@),
                message_ids@,
            )
            &&& post.log_of(info.sender@) == claimed_log(pre.log_of(info.sender@), message_ids@)
        },
        Err(MessagesError::NoLog) => {
            &&& !pre.has_log(info.sender@)
            &&& post == pre
        },
        Err(MessagesError::NoMessage) => {
            &&& pre.has_log(info.sender@)
            &&& !ids_valid(message_ids@, pre.log_of(info.sender@).len())
            &&& post == pre
        },
        Err(_) => false,
    }
}

/// How a batched delete relates the store before the call to the store
/// after it: the same refund as a claim, after which every message whose
/// original position is listed is removed; a missing log or an
/// out-of-range index refuses the batch and changes nothing.
pub open spec fn delete_post(
    pre: MessageStore,
    post: MessageStore,
    info: MessageInfo,
    message_ids: Vec<u64>,
    r: Result<BankTransfer, MessagesError>,
) -> bool {
    &&& post.wf()
    &&& post.config == pre.config
    &&& post.ownership == pre.ownership
    &&& post.has_log(info.sender@) == pre.has_log(info.sender@)
    &&& forall|a: Seq<char>|
        a != info.sender@ ==> post.has_log(a) == pre.has_log(a) && post.log_of(a) == pre.log_of(a)
    &&& match r {
        Ok(transfer) => {
            &&& pre.has_log(info.sender@)
            &&& ids_valid(message_ids@, pre.log_of(info.sender@).len())
            &&& transfer.to_address == info.sender
            &&& transfer.amount@ == claimed_funds(
                Seq::empty(),
                pre.log_of(info.sender@),
                message_ids@,
            )
            &&& post.log_of(info.sender@) == retain_unlisted(
                pre.log_of(info.sender@),
                message_ids@,
            )
            &&& post.log_of(info.sender@).len() == pre.log_of(info.sender@).len()
                - count_selected(pre.log_of(info.sender@).len(), message_ids@)
        },
        Err(MessagesError::NoLog) => {
            &&& !pre.has_log(info.sender@)
            &&& post == pre
        },
        Err(MessagesError::NoMessage) => {
            &&& pre.has_log(info.sender@)
            &&& !ids_valid(message_ids@, pre.log_of(info.sender@).len())
            &&& post == pre
        },
        Err(_) => false,
    }
}

/// How a configuration change relates the store before the call to the
/// store after it: the owner replaces both pagination bounds at once;
/// anyone else is refused and nothing changes.
pub open spec fn change_config_post(
    pre: MessageStore,
    post: MessageStore,
    info: MessageInfo,
    default_query_limit: u64,
    max_query_limit: u64,
    r: Result<(), MessagesError>,
) -> bool {
    &&& post.wf()
    &&& post.ownership == pre.ownership
    &&& post.logs == pre.logs
    &&& if pre.ownership.is_owner(info.sender@) {
        &&& r is Ok
        &&& post.config == (Config { default_query_limit, max_query_limit })
    } else {
        &&& r == Err::<(), MessagesError>(
            MessagesError::Ownership(pre.ownership.owner_error()),
        )
        &&& post == pre
    }
}

impl MessageStore {
    /// Append a message to the receiver's log, creating the log when it is
    /// the receiver's first. Only the owner -- the controller -- may
    /// append; the attached funds become the message's escrow.
    pub fn send_message(
        &mut self,
        info: MessageInfo,
        sender: String,
        receiver: String,
        message: Vec<u8>,
    ) -> (r: Result<(), MessagesError>)
        requires
            old(self).wf(),
        ensures
            send_message_post(*old(self), *final(self), info, sender, receiver, message, r),
    {
        if let Err(e) = self.ownership.assert_owner(&info.sender) {
            return Err(MessagesError::Ownership(e));
        }
        let ghost pre = *self;
        let msg = Message { sender, content: message, funds: info.funds };
        let ghost msg_view = msg@;
        match self.find_log(&receiver) {
            Some(i) => {
                let ghost prev = self.logs@[i as int].messages.deep_view();
                let slot = &mut self.logs[i];
                slot.messages.push(msg);
                proof {
                    assert(self.logs@[i as int].messages.deep_view() =~= prev.push(msg_view));
                    lemma_one_slot_changed(pre, *self, i as int);
                }
                Ok(())
            },
            None => {
                self.logs.push(UserMessages { address: receiver, messages: vec![msg] });
                proof {
                    let n = pre.logs@.len() as int;
                    assert(self.logs@[n].messages.deep_view() =~= Seq::<
                        MessageView,
                    >::empty().push(msg_view));
                    lemma_slot_appended(pre, *self);
                }
                Ok(())
            },
        }
    }

    /// Claim the value escrowed with the listed messages of the caller's
    /// own log: everything still escrowed there is merged into one
    /// multi-currency transfer back to the caller, and those messages'
    /// escrows are emptied. Any out-of-range index refuses the whole batch
    /// and changes nothing.
    pub fn claim_message_funds(&mut self, info: MessageInfo, message_ids: Vec<u64>) -> (r: Result<
        BankTransfer,
        MessagesError,
    >)
        requires
            old(self).wf(),
            sum_escrow(old(self).log_of(info.sender@)) <= u128::MAX,
        ensures
            claim_post(*old(self), *final(self), info, message_ids, r),
    {
        let idx = match self.find_log(&info.sender) {
            Some(i) => i,
            None => {
                return Err(MessagesError::NoLog);
            },
        };
        let ghost pre = *self;
        proof {
            pre.lemma_log_at(idx as int);
        }
        if let Err(e) = check_ids(&message_ids, self.logs[idx].messages.len()) {
            return Err(e);
        }
        let mut funds: Vec<Coin> = Vec::new();
        proof {
            assert(sum_amounts(Seq::<Coin>::empty()) == 0);
        }
        let slot = &mut self.logs[idx];
        let res = create_funds_array(&mut funds, &mut slot.messages, &message_ids);
        proof {
            lemma_first_invalid(message_ids@, pre.log_of(info.sender@).len());
            assert(message_ids@.take(
                first_invalid(message_ids@, pre.log_of(info.sender@).len()),
            ) =~= message_ids@);
            lemma_one_slot_changed(pre, *self, idx as int);
        }
        match res {
            Err(e) => Err(e),
            Ok(()) => Ok(BankTransfer { to_address: info.sender, amount: funds }),
        }
    }

    /// Refund and remove the listed messages of the caller's own log: the
    /// same funds accumulation and transfer as a claim, after which every
    /// message whose original position is listed is removed -- by original
    /// position, whatever order or duplication the list has. Any
    /// out-of-range index refuses the whole batch and changes nothing.
    pub fn delete_messages(&mut self, info: MessageInfo, message_ids: Vec<u64>) -> (r: Result<
        BankTransfer,
        MessagesError,
    >)
        requires
            old(self).wf(),
            sum_escrow(old(self).log_of(info.sender@)) <= u128::MAX,
        ensures
            delete_post(*old(self), *final(self), info, message_ids, r),
    {
        let idx = match self.find_log(&info.sender) {
            Some(i) => i,
            None => {
                return Err(MessagesError::NoLog);
            },
        };
        let ghost pre = *self;
        proof {
            pre.lemma_log_at(idx as int);
        }
        let len = self.logs[idx].messages.len();
        if let Err(e) = check_ids(&message_ids, len) {
            return Err(e);
        }
        let ghost log0 = pre.log_of(info.sender@);
        let mut funds: Vec<Coin> = Vec::new();
        proof {
            assert(sum_amounts(Seq::<Coin>::empty()) == 0);
        }
        let slot = &mut self.logs[idx];
        let res = create_funds_array(&mut funds, &mut slot.messages, &message_ids);
        if let Err(e) = res {
            proof {
                lemma_first_invalid(message_ids@, log0.len());
            }
            return Err(e);
        }
        let ghost cleared = slot.messages.deep_view();
        proof {
            lemma_first_invalid(message_ids@, log0.len());
            assert(message_ids@.take(first_invalid(message_ids@, log0.len())) =~= message_ids@);
            assert(cleared == claimed_log(log0, message_ids@));
        }
        // compact once, keeping exactly the messages whose original
        // position is unlisted
        let mut kept: Vec<Message> = Vec::new();
        let mut i: usize = 0;
        proof {
            assert(cleared.take(0) =~= Seq::<MessageView>::empty());
        }
        while i < len
            invariant
                i <= len,
                len == slot.messages@.len(),
                cleared == slot.messages.deep_view(),
                kept.deep_view() == retain_unlisted(cleared.take(i as int), message_ids@),
            decreases len - i,
        {
            let ghost prev_kept = kept.deep_view();
            if !ids_contain(&message_ids, i as u64) {
                kept.push(slot.messages[i].clone());
                proof {
                    assert(kept.deep_view() =~= prev_kept.push(cleared[i as int]));
                }
            }
            proof {
                assert(cleared.take(i + 1).drop_last() =~= cleared.take(i as int));
                assert(cleared.take(i + 1).last() == cleared[i as int]);
            }
            i = i + 1;
        }
        slot.messages = kept;
        proof {
            assert(cleared.take(len as int) =~= cleared);
            lemma_claimed_log_pointwise(log0, message_ids@);
            lemma_retain_agree(cleared, log0, message_ids@);
            lemma_retain_unlisted_len(log0, message_ids@);
            lemma_one_slot_changed(pre, *self, idx as int);
        }
        Ok(BankTransfer { to_address: info.sender, amount: funds })
    }

    /// How many messages an address's log currently holds; zero -- never a
    /// failure -- for an address that has never received one.
    pub fn query_total_messages(&self, address: &String) -> (r: TotalMessagesResponse)
        requires
            self.wf(),
        ensures
            r.total == self.log_of(address@).len(),
    {
        match self.find_log(address) {
            Some(i) => TotalMessagesResponse { total: self.logs[i].messages.len() as u64 },
            None => TotalMessagesResponse { total: 0 },
        }
    }

    /// Replace both pagination bounds at once; owner only.
    pub fn change_config(
        &mut self,
        info: &MessageInfo,
        default_query_limit: u64,
        max_query_limit: u64,
    ) -> (r: Result<(), MessagesError>)
        requires
            old(self).wf(),
        ensures
            change_config_post(
                *old(self),
                *final(self),
                *info,
                default_query_limit,
                max_query_limit,
                r,
            ),
    {
        if let Err(e) = self.ownership.assert_owner(&info.sender) {
            return Err(MessagesError::Ownership(e));
        }
        self.config = Config { default_query_limit, max_query_limit };
        Ok(())
    }

    /// Hand an ownership action to the store's owner slot.
    pub fn update_ownership(&mut self, info: &MessageInfo, action: Action) -> (r: Result<
        (),
        MessagesError,
    >)
        requires
            old(self).wf(),
        ensures
            final(self).wf(),
            final(self).config == old(self).config,
            final(self).logs == old(self).logs,
            match r {
                Ok(()) => update_ownership_post(
                    old(self).ownership,
                    final(self).ownership,
                    info.sender@,
                    action,
                    Ok(()),
                ),
                Err(MessagesError::Ownership(e)) => update_ownership_post(
                    old(self).ownership,
                    final(self).ownership,
                    info.sender@,
                    action,
                    Err(e),
                ),
                Err(_) => false,
            },
    {
        match self.ownership.update_ownership(&info.sender, action) {
            Ok(()) => Ok(()),
            Err(e) => Err(MessagesError::Ownership(e)),
        }
    }

    /// A reverse-chronological page of an address's log: the window of
    /// positions `[max(0, upper - limit), upper)` where `upper` is `from`
    /// clamped to the log's length, read back to front -- most recent
    /// first -- with each entry carrying its original position. The limit
    /// defaults to the configured default and is capped at the configured
    /// maximum.
    pub fn query_messages(&self, address: &String, from: u64, limit: Option<u64>) -> (r: Result<
        MessagesResponse,
        MessagesError,
    >)
        requires
            self.wf(),
        ensures
            query_messages_post(*self, address@, from, limit, r),
    {
        let i = match self.find_log(address) {
            Some(i) => i,
            None => {
                return Err(MessagesError::NoLog);
            },
        };
        proof {
            self.lemma_log_at(i as int);
        }
        let log = &self.logs[i].messages;
        let n = log.len();
        let requested = match limit {
            Some(l) => l,
            None => self.config.default_query_limit,
        };
        let lim: u64 = if requested < self.config.max_query_limit {
            requested
        } else {
            self.config.max_query_limit
        };
        let upper: u64 = if from <= n as u64 {
            from
        } else {
            n as u64
        };
        let lower: u64 = if upper > lim {
            upper - lim
        } else {
            0
        };
        let mut out: Vec<MessageResponse> = Vec::new();
        let mut pos: u64 = upper;
        while pos > lower
            invariant
                lower <= pos <= upper,
                upper <= n as u64,
                n == log@.len(),
                out@.len() == upper - pos,
                forall|k: int|
                    0 <= k < out@.len() ==> out@[k].id == upper - 1 - k && out@[k].message@
                        == log.deep_view()[upper - 1 - k],
            decreases pos - lower,
        {
            pos = pos - 1;
            out.push(MessageResponse { id: pos, message: log[pos as usize].clone() });
        }
        Ok(MessagesResponse { messages: out })
    }

    /// One decoded request dispatched to the store; the claim and delete
    /// arms hand back the transfer the environment must carry out.
    pub fn execute(&mut self, info: MessageInfo, msg: MessagesExecuteMsg) -> (r: Result<
        Option<BankTransfer>,
        MessagesError,
    >)
        requires
            old(self).wf(),
            match msg {
                MessagesExecuteMsg::ClaimMessageFunds { .. } => sum_escrow(
                    old(self).log_of(info.sender@),
                ) <= u128::MAX,
                MessagesExecuteMsg::DeleteMessages { .. } => sum_escrow(
                    old(self).log_of(info.sender@),
                ) <= u128::MAX,
                _ => true,
            },
        ensures
            final(self).wf(),
            match msg {
                MessagesExecuteMsg::SendMessage { sender, receiver, message } => match r {
                    Ok(opt) => opt is None && send_message_post(
                        *old(self),
                        *final(self),
                        info,
                        sender,
                        receiver,
                        message,
                        Ok(()),
                    ),
                    Err(e) => send_message_post(
                        *old(self),
                        *final(self),
                        info,
                        sender,
                        receiver,
                        message,
                        Err(e),
                    ),
                },
                MessagesExecuteMsg::ClaimMessageFunds { message_ids } => match r {
                    Ok(Some(t)) => claim_post(*old(self), *final(self), info, message_ids, Ok(t)),
                    Ok(None) => false,
                    Err(e) => claim_post(*old(self), *final(self), info, message_ids, Err(e)),
                },
                MessagesExecuteMsg::DeleteMessages { message_ids } => match r {
                    Ok(Some(t)) => delete_post(*old(self), *final(self), info, message_ids, Ok(t)),
                    Ok(None) => false,
                    Err(e) => delete_post(*old(self), *final(self), info, message_ids, Err(e)),
                },
                MessagesExecuteMsg::ChangeConfig { default_query_limit, max_query_limit } => match r {
                    Ok(opt) => opt is None && change_config_post(
                        *old(self),
                        *final(self),
                        info,
                        default_query_limit,
                        max_query_limit,
                        Ok(()),
                    ),
                    Err(e) => change_config_post(
                        *old(self),
                        *final(self),
                        info,
                        default_query_limit,
                        max_query_limit,
                        Err(e),
                    ),
                },
                MessagesExecuteMsg::UpdateOwnership(action) => {
                    &&& final(self).config == old(self).config
                    &&& final(self).logs == old(self).logs
                    &&& match r {
                        Ok(opt) => opt is None && update_ownership_post(
                            old(self).ownership,
                            final(self).ownership,
                            info.sender@,
                            action,
                            Ok(()),
                        ),
                        Err(MessagesError::Ownership(e)) => update_ownership_post(
                            old(self).ownership,
                            final(self).ownership,
                            info.sender@,
                            action,
                            Err(e),
                        ),
                        Err(_) => false,
                    }
                },
            },
    {
        match msg {
            MessagesExecuteMsg::SendMessage { sender, receiver, message } => {
                match self.send_message(info, sender, receiver, message) {
                    Ok(()) => Ok(None),
                    Err(e) => Err(e),
                }
            },
            MessagesExecuteMsg::ClaimMessageFunds { message_ids } => {
                match self.claim_message_funds(info, message_ids) {
                    Ok(t) => Ok(Some(t)),
                    Err(e) => Err(e),
                }
            },
            MessagesExecuteMsg::DeleteMessages { message_ids } => {
                match self.delete_messages(info, message_ids) {
                    Ok(t) => Ok(Some(t)),
                    Err(e) => Err(e),
                }
            },
            MessagesExecuteMsg::ChangeConfig { default_query_limit, max_query_limit } => {
                match self.change_config(&info, default_query_limit, max_query_limit) {
                    Ok(()) => Ok(None),
                    Err(e) => Err(e),
                }
            },
            MessagesExecuteMsg::UpdateOwnership(action) => {
                match self.update_ownership(&info, action) {
                    Ok(()) => Ok(None),
                    Err(e) => Err(e),
                }
            },
        }
    }
}

/// A batched claim over messages that hold no escrow gathers nothing and
/// changes nothing.
pub proof fn lemma_claim_of_empty(acc: Seq<Coin>, log: Seq<MessageView>, ids: Seq<u64>)
    requires
        ids_valid(ids, log.len()),
        forall|k: int| 0 <= k < ids.len() ==> log[ids[k] as int].funds == Seq::<Coin>::empty(),
    ensures
        claimed_funds(acc, log, ids) == acc,
        claimed_log(log, ids) == log,
    decreases ids.len(),
{
    if ids.len() > 0 {
        let j = ids[0] as int;
        assert(log[j].funds == Seq::<Coin>::empty());
        assert(clear_at(log, j) =~= log);
        assert(merge_coins(acc, log[j].funds) == acc);
        let tail = ids.subrange(1, ids.len() as int);
        assert forall|k: int| 0 <= k < tail.len() implies tail[k] < log.len() && log[tail[k] as int].funds
            == Seq::<Coin>::empty() by {
            assert(tail[k] == ids[k + 1]);
        }
        lemma_claim_of_empty(acc, log, tail);
        assert(claimed_funds(acc, log, ids) == claimed_funds(acc, log, tail));
        assert(claimed_log(log, ids) == claimed_log(log, tail));
    }
}

/// Escrowed value is claimed at most once: after a batched claim, the same
/// batch gathers nothing and changes nothing, however often its indices
/// repeat.
pub proof fn lemma_claim_idempotent(log: Seq<MessageView>, ids: Seq<u64>)
    requires
        ids_valid(ids, log.len()),
        log.len() <= u64::MAX,
    ensures
        claimed_funds(Seq::empty(), claimed_log(log, ids), ids) == Seq::<Coin>::empty(),
        claimed_log(claimed_log(log, ids), ids) == claimed_log(log, ids),
{
    lemma_claimed_log_pointwise(log, ids);
    let cleared = claimed_log(log, ids);
    assert forall|k: int| 0 <= k < ids.len() implies cleared[ids[k] as int].funds == Seq::<
        Coin,
    >::empty() by {
        assert(ids.contains(ids[k]));
    }
    lemma_claim_of_empty(Seq::empty(), cleared, ids);
}

/// A batched claim conserves value: what the gathered transfer carries is
/// exactly what left the log's escrow.
pub proof fn lemma_claim_conserves_value(acc: Seq<Coin>, log: Seq<MessageView>, ids: Seq<u64>)
    requires
        sum_amounts(acc) + sum_escrow(log) <= u128::MAX,
        ids_valid(ids, log.len()),
    ensures
        sum_amounts(claimed_funds(acc, log, ids)) + sum_escrow(claimed_log(log, ids))
            == sum_amounts(acc) + sum_escrow(log),
    decreases ids.len(),
{
    if ids.len() > 0 {
        let j = ids[0] as int;
        let tail = ids.subrange(1, ids.len() as int);
        let acc1 = merge_coins(acc, log[j].funds);
        let log1 = clear_at(log, j);
        lemma_sum_escrow_elem(log, j);
        crate::funds::lemma_merge_coins_sum(acc, log[j].funds);
        lemma_sum_escrow_update(
            log,
            j,
            MessageView { sender: log[j].sender, content: log[j].content, funds: Seq::empty() },
        );
        assert(sum_amounts(Seq::<Coin>::empty()) == 0);
        assert forall|k: int| 0 <= k < tail.len() implies tail[k] < log1.len() by {
            assert(tail[k] == ids[k + 1]);
        }
        lemma_claim_conserves_value(acc1, log1, tail);
    }
}

/// A claim's transfer is one well-formed multi-currency amount: merging
/// into an accumulator with distinct denominations keeps them distinct.
pub proof fn lemma_claimed_funds_distinct(acc: Seq<Coin>, log: Seq<MessageView>, ids: Seq<u64>)
    requires
        crate::funds::distinct_denoms(acc),
    ensures
        crate::funds::distinct_denoms(claimed_funds(acc, log, ids)),
    decreases ids.len(),
{
    if ids.len() > 0 {
        crate::funds::lemma_merge_coins_distinct(acc, log[ids[0] as int].funds);
        lemma_claimed_funds_distinct(
            merge_coins(acc, log[ids[0] as int].funds),
            clear_at(log, ids[0] as int),
            ids.subrange(1, ids.len() as int),
        );
    }
}

/// A batch's head index either is the listed value or the tail lists it.
proof fn lemma_contains_head_tail(ids: Seq<u64>, v: u64)
    requires
        ids.len() > 0,
    ensures
        ids.contains(v) <==> (v == ids[0] || ids.subrange(1, ids.len() as int).contains(v)),
{
    let tail = ids.subrange(1, ids.len() as int);
    if ids.contains(v) {
        let w = choose|w: int| 0 <= w < ids.len() && ids[w] == v;
        if w >= 1 {
            assert(tail[w - 1] == v);
        }
    }
    if tail.contains(v) {
        let w = choose|w: int| 0 <= w < tail.len() && tail[w] == v;
        assert(ids[w + 1] == v);
    }
    assert(ids.contains(ids[0]));
}

/// What the first `n` positions of a log hold escrowed of one
/// denomination at the distinct listed positions; a position listed twice
/// counts once.
pub open spec fn escrow_of_selected(
    log: Seq<MessageView>,
    n: nat,
    ids: Seq<u64>,
    denom: Seq<char>,
) -> int
    decreases n,
{
    if n == 0 {
        0
    } else {
        escrow_of_selected(log, (n - 1) as nat, ids, denom) + (
        if ids.contains((n - 1) as u64) {
            crate::funds::amount_of(log[n - 1].funds, denom)
        } else {
            0
        })
    }
}

/// Processing the head index moves its message's whole escrow out of the
/// selected total and into the gathered one.
proof fn lemma_escrow_of_selected_step(log: Seq<MessageView>, n: nat, ids: Seq<u64>, denom: Seq<
    char,
>)
    requires
        ids.len() > 0,
        ids[0] < log.len(),
        n <= log.len(),
        n <= u64::MAX,
    ensures
        escrow_of_selected(log, n, ids, denom) == (
        if ids[0] < n {
            crate::funds::amount_of(log[ids[0] as int].funds, denom)
        } else {
            0
        }) + escrow_of_selected(
            clear_at(log, ids[0] as int),
            n,
            ids.subrange(1, ids.len() as int),
            denom,
        ),
    decreases n,
{
    let j = ids[0] as int;
    let tail = ids.subrange(1, ids.len() as int);
    let log1 = clear_at(log, j);
    if n > 0 {
        lemma_escrow_of_selected_step(log, (n - 1) as nat, ids, denom);
        lemma_contains_head_tail(ids, (n - 1) as u64);
        if j == n - 1 {
            assert(log1[j].funds == Seq::<Coin>::empty());
            assert(crate::funds::amount_of(Seq::<Coin>::empty(), denom) == 0);
        } else {
            assert(log1[n - 1] == log[n - 1]);
        }
    }
}

/// What a batched claim transfers of each denomination: exactly the total
/// of that denomination escrowed at the distinct listed positions --
/// same-denomination amounts sum, and nothing is paid twice.
pub proof fn lemma_claimed_funds_amount_of(
    acc: Seq<Coin>,
    log: Seq<MessageView>,
    ids: Seq<u64>,
    denom: Seq<char>,
)
    requires
        sum_amounts(acc) + sum_escrow(log) <= u128::MAX,
        ids_valid(ids, log.len()),
        log.len() <= u64::MAX,
    ensures
        crate::funds::amount_of(claimed_funds(acc, log, ids), denom) == crate::funds::amount_of(
            acc,
            denom,
        ) + escrow_of_selected(log, log.len(), ids, denom),
    decreases ids.len(),
{
    if ids.len() == 0 {
        assert(escrow_of_selected(log, log.len(), ids, denom) == 0) by {
            lemma_escrow_of_selected_none(log, log.len(), ids, denom);
        }
    } else {
        let j = ids[0] as int;
        let tail = ids.subrange(1, ids.len() as int);
        let acc1 = merge_coins(acc, log[j].funds);
        let log1 = clear_at(log, j);
        lemma_sum_escrow_elem(log, j);
        crate::funds::lemma_merge_coins_amount_of(acc, log[j].funds, denom);
        crate::funds::lemma_merge_coins_sum(acc, log[j].funds);
        lemma_sum_escrow_update(
            log,
            j,
            MessageView { sender: log[j].sender, content: log[j].content, funds: Seq::empty() },
        );
        assert(sum_amounts(Seq::<Coin>::empty()) == 0);
        assert forall|k: int| 0 <= k < tail.len() implies tail[k] < log1.len() by {
            assert(tail[k] == ids[k + 1]);
        }
        lemma_claimed_funds_amount_of(acc1, log1, tail, denom);
        lemma_escrow_of_selected_step(log, log.len(), ids, denom);
    }
}

/// A batch that lists nothing selects nothing.
proof fn lemma_escrow_of_selected_none(log: Seq<MessageView>, n: nat, ids: Seq<u64>, denom: Seq<
    char,
>)
    requires
        ids.len() == 0,
    ensures
        escrow_of_selected(log, n, ids, denom) == 0,
    decreases n,
{
    if n > 0 {
        lemma_escrow_of_selected_none(log, (n - 1) as nat, ids, denom);
    }
}

/// Round trip of the per-recipient count: a log holding `n` messages still
/// holds `n` after any batched claim, and holds `n` minus the number of
/// distinct deleted positions after a batched delete -- whatever was
/// claimed in between.
pub proof fn lemma_total_round_trip(log: Seq<MessageView>, claim_ids: Seq<u64>, delete_ids: Seq<
    u64,
>)
    requires
        log.len() <= u64::MAX,
        ids_valid(claim_ids, log.len()),
    ensures
        claimed_log(log, claim_ids).len() == log.len(),
        count_selected(log.len(), delete_ids) <= log.len(),
        retain_unlisted(claimed_log(log, claim_ids), delete_ids).len() == log.len()
            - count_selected(log.len(), delete_ids),
{
    lemma_claimed_log_pointwise(log, claim_ids);
    lemma_retain_unlisted_len(claimed_log(log, claim_ids), delete_ids);
}

/// What a page read reports: the reverse-chronological window of positions
/// `[max(0, upper - limit), upper)` with `upper` the requested start
/// clamped to the log's length, each entry carrying its original position;
/// or a refusal when the address has no log.
pub open spec fn query_messages_post(
    s: MessageStore,
    address: Seq<char>,
    from: u64,
    limit: Option<u64>,
    r: Result<MessagesResponse, MessagesError>,
) -> bool {
    match r {
        Ok(resp) => s.has_log(address) && ({
            let log = s.log_of(address);
            let lim = effective_limit(limit, s.config) as int;
            let upper = if from <= log.len() {
                from as int
            } else {
                log.len() as int
            };
            let lower = if upper - lim >= 0 {
                upper - lim
            } else {
                0
            };
            &&& resp.messages@.len() == upper - lower
            &&& forall|k: int|
                0 <= k < resp.messages@.len() ==> resp.messages@[k].id == upper - 1 - k
                    && resp.messages@[k].message@ == log[upper - 1 - k]
        }),
        Err(MessagesError::NoLog) => !s.has_log(address),
        Err(_) => false,
    }
}

/// The answer to one read of the store.
pub enum MessagesQueryAnswer {
    Messages(MessagesResponse),
    Total(TotalMessagesResponse),
}

impl MessageStore {
    /// Answer one read.
    pub fn query(&self, msg: MessagesQueryMsg) -> (r: Result<MessagesQueryAnswer, MessagesError>)
        requires
            self.wf(),
        ensures
            match msg {
                MessagesQueryMsg::Messages { address, from, limit } => match r {
                    Ok(MessagesQueryAnswer::Messages(resp)) => query_messages_post(
                        *self,
                        address@,
                        from,
                        limit,
                        Ok(resp),
                    ),
                    Ok(_) => false,
                    Err(e) => query_messages_post(*self, address@, from, limit, Err(e)),
                },
                MessagesQueryMsg::TotalMessages { address } => match r {
                    Ok(MessagesQueryAnswer::Total(t)) => t.total == self.log_of(address@).len(),
                    _ => false,
                },
            },
    {
        match msg {
            MessagesQueryMsg::Messages { address, from, limit } => {
                match self.query_messages(&address, from, limit) {
                    Ok(resp) => Ok(MessagesQueryAnswer::Messages(resp)),
                    Err(e) => Err(e),
                }
            },
            MessagesQueryMsg::TotalMessages { address } => {
                Ok(MessagesQueryAnswer::Total(self.query_total_messages(&address)))
            },
        }
    }
}

/// The page size a query uses: the requested limit, or the configured
/// default when none is named, capped at the configured maximum.
pub open spec fn effective_limit(limit: Option<u64>, config: Config) -> u64 {
    let requested = match limit {
        Some(l) => l,
        None => config.default_query_limit,
    };
    if requested < config.max_query_limit {
        requested
    } else {
        config.max_query_limit
    }
}

} // verus!
