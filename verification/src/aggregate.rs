//! Per-user aggregation: sums transfer bytes and packets over all of one
//! hub's sessions, keyed by user name. The aggregate is recomputed from
//! scratch every scrape and depends only on which sessions there are, not
//! on their order.

use vstd::prelude::*;

use crate::session::{HubSession, HubSessionView};
use crate::strutil::str_eq;

verus! {

/// One user's summed transfer across a hub's sessions.
#[derive(PartialEq, Debug)]
pub struct UserTransfer {
    pub user: String,
    pub bytes: u128,
    pub packets: u128,
}

/// The mathematical model of one user's aggregate.
pub ghost struct UserTransferView {
    pub user: Seq<char>,
    pub bytes: int,
    pub packets: int,
}

impl View for UserTransfer {
    type V = UserTransferView;

    open spec fn view(&self) -> UserTransferView {
        UserTransferView { user: self.user@, bytes: self.bytes as int, packets: self.packets as int }
    }
}

impl DeepView for UserTransfer {
    type V = UserTransferView;

    open spec fn deep_view(&self) -> UserTransferView {
        self.view()
    }
}

/// What one session contributes to a user's byte sum.
pub open spec fn session_bytes(s: HubSessionView, u: Seq<char>) -> int {
    if s.user == u {
        s.transfer_bytes as int
    } else {
        0
    }
}

/// What one session contributes to a user's packet sum.
pub open spec fn session_packets(s: HubSessionView, u: Seq<char>) -> int {
    if s.user == u {
        s.transfer_packets as int
    } else {
        0
    }
}

/// A user's transfer bytes summed over a session sequence.
pub open spec fn user_bytes_total(ss: Seq<HubSessionView>, u: Seq<char>) -> int
    decreases ss.len(),
{
    if ss.len() == 0 {
        0
    } else {
        user_bytes_total(ss.drop_last(), u) + session_bytes(ss.last(), u)
    }
}

/// A user's transfer packets summed over a session sequence.
pub open spec fn user_packets_total(ss: Seq<HubSessionView>, u: Seq<char>) -> int
    decreases ss.len(),
{
    if ss.len() == 0 {
        0
    } else {
        user_packets_total(ss.drop_last(), u) + session_packets(ss.last(), u)
    }
}

/// The distinct user names of a session sequence, in order of first
/// appearance.
pub open spec fn distinct_users(ss: Seq<HubSessionView>) -> Seq<Seq<char>>
    decreases ss.len(),
{
    if ss.len() == 0 {
        Seq::empty()
    } else {
        let front = distinct_users(ss.drop_last());
        if front.contains(ss.last().user) {
            front
        } else {
            front.push(ss.last().user)
        }
    }
}

/// What aggregating a session sequence yields: one entry per distinct
/// user, in order of first appearance, holding that user's summed bytes
/// and packets.
pub open spec fn spec_aggregate(ss: Seq<HubSessionView>) -> Seq<UserTransferView> {
    Seq::new(
        distinct_users(ss).len(),
        |i: int|
            UserTransferView {
                user: distinct_users(ss)[i],
                bytes: user_bytes_total(ss, distinct_users(ss)[i]),
                packets: user_packets_total(ss, distinct_users(ss)[i]),
            },
    )
}

/// The distinct-user list never repeats a name.
proof fn lemma_distinct_no_dup(ss: Seq<HubSessionView>)
    ensures
        forall|k1: int, k2: int|
            0 <= k1 < k2 < distinct_users(ss).len() ==> distinct_users(ss)[k1] != distinct_users(
                ss,
            )[k2],
    decreases ss.len(),
{
    if ss.len() > 0 {
        lemma_distinct_no_dup(ss.drop_last());
        let front = distinct_users(ss.drop_last());
        if !front.contains(ss.last().user) {
            assert(forall|k: int| 0 <= k < front.len() ==> front[k] != ss.last().user);
            assert(forall|k: int|
                0 <= k < front.len() ==> #[trigger] front.push(ss.last().user)[k] == front[k]);
        }
    }
}

/// Membership in the distinct-user list survives appending a session.
proof fn lemma_distinct_grows(ss: Seq<HubSessionView>, u: Seq<char>)
    requires
        ss.len() > 0,
        distinct_users(ss.drop_last()).contains(u),
    ensures
        distinct_users(ss).contains(u),
{
    let front = distinct_users(ss.drop_last());
    let k = choose|k: int| 0 <= k < front.len() && front[k] == u;
    if !front.contains(ss.last().user) {
        assert(front.push(ss.last().user)[k] == u);
    }
}

/// A user the distinct list does not know contributes nothing to any sum.
proof fn lemma_absent_user_zero(ss: Seq<HubSessionView>, u: Seq<char>)
    requires
        !distinct_users(ss).contains(u),
    ensures
        user_bytes_total(ss, u) == 0,
        user_packets_total(ss, u) == 0,
    decreases ss.len(),
{
    if ss.len() > 0 {
        if distinct_users(ss.drop_last()).contains(u) {
            lemma_distinct_grows(ss, u);
        }
        lemma_absent_user_zero(ss.drop_last(), u);
        let front = distinct_users(ss.drop_last());
        if u == ss.last().user {
            if front.contains(ss.last().user) {
            } else {
                assert(front.push(ss.last().user)[front.len() as int] == u);
            }
            assert(distinct_users(ss).contains(u));
        }
    }
}

/// Sums stay within the sessions' count times the largest counter.
proof fn lemma_totals_bounded(ss: Seq<HubSessionView>, u: Seq<char>)
    ensures
        0 <= user_bytes_total(ss, u) <= ss.len() * u64::MAX,
        0 <= user_packets_total(ss, u) <= ss.len() * u64::MAX,
    decreases ss.len(),
{
    if ss.len() > 0 {
        lemma_totals_bounded(ss.drop_last(), u);
        assert(ss.len() * u64::MAX == (ss.len() - 1) * u64::MAX + u64::MAX) by (nonlinear_arith);
    }
}

/// Aggregate a hub's sessions by user.
pub fn aggregate_user_transfer(sessions: &Vec<HubSession>) -> (r: Vec<UserTransfer>)
    ensures
        r.deep_view() == spec_aggregate(sessions.deep_view()),
{
    let ghost ssv = sessions.deep_view();
    let mut out: Vec<UserTransfer> = Vec::new();
    let mut i: usize = 0;
    proof {
        assert(ssv.take(0) =~= Seq::<HubSessionView>::empty());
        assert(out.deep_view() =~= spec_aggregate(ssv.take(0)));
    }
    while i < sessions.len()
        invariant
            i <= sessions@.len(),
            ssv == sessions.deep_view(),
            ssv.len() == sessions@.len(),
            out.deep_view() == spec_aggregate(ssv.take(i as int)),
        decreases sessions@.len() - i,
    {
        let s = &sessions[i];
        let ghost pre = ssv.take(i as int);
        let ghost sv = ssv[i as int];
        proof {
            assert(sv == s.deep_view());
            assert(ssv.take(i + 1).drop_last() =~= pre);
            assert(ssv.take(i + 1).last() == sv);
        }
        // Find this session's user among the entries built so far.
        let mut j: usize = 0;
        let mut found = false;
        while j < out.len() && !found
            invariant
                j <= out@.len(),
                sv.user == s.user@,
                out.deep_view() == spec_aggregate(pre),
                found ==> j < out@.len() && out.deep_view()[j as int].user == sv.user,
                !found ==> forall|k: int| 0 <= k < j ==> out.deep_view()[k].user != sv.user,
            decreases out@.len() - j + (if found { 0int } else { 1int }),
        {
            if str_eq(out[j].user.as_str(), s.user.as_str()) {
                found = true;
            } else {
                j = j + 1;
            }
        }
        let ghost du = distinct_users(pre);
        let ghost post = ssv.take(i + 1);
        let ghost du_post = distinct_users(post);
        proof {
            assert(out.deep_view().len() == du.len());
            assert(out@.len() == du.len());
            assert(forall|k: int|
                0 <= k < du.len() ==> #[trigger] spec_aggregate(pre)[k].user == du[k]);
            assert(forall|k: int| 0 <= k < du.len() ==> #[trigger] du[k] == out.deep_view()[k].user);
            if found {
                assert(du[j as int] == sv.user);
                assert(du.contains(sv.user));
            } else {
                assert(forall|k: int| 0 <= k < du.len() ==> #[trigger] du[k] != sv.user);
                assert(!du.contains(sv.user));
            }
            assert(post.drop_last() =~= pre);
            assert(forall|u: Seq<char>|
                #![auto]
                user_bytes_total(post, u) == user_bytes_total(pre, u) + session_bytes(sv, u));
            assert(forall|u: Seq<char>|
                #![auto]
                user_packets_total(post, u) == user_packets_total(pre, u) + session_packets(
                    sv,
                    u,
                ));
        }
        if found {
            let entry = &out[j];
            proof {
                lemma_totals_bounded(pre, sv.user);
                assert(pre.len() * u64::MAX <= (usize::MAX as int) * u64::MAX) by (nonlinear_arith)
                    requires pre.len() <= usize::MAX as int;
            }
            let updated = UserTransfer {
                user: entry.user.clone(),
                bytes: entry.bytes + s.transfer_bytes as u128,
                packets: entry.packets + s.transfer_packets as u128,
            };
            out.set(j, updated);
            proof {
                lemma_distinct_no_dup(pre);
                assert(du_post == du);
                assert forall|k: int| 0 <= k < du.len() implies out.deep_view()[k]
                    == spec_aggregate(post)[k] by {
                    if k == j {
                        assert(session_bytes(sv, du[k]) == sv.transfer_bytes as int);
                        assert(session_packets(sv, du[k]) == sv.transfer_packets as int);
                    } else {
                        assert(du[k] != sv.user);
                        assert(session_bytes(sv, du[k]) == 0);
                        assert(session_packets(sv, du[k]) == 0);
                    }
                }
                assert(out.deep_view() =~= spec_aggregate(post));
            }
        } else {
            out.push(
                UserTransfer {
                    user: s.user.clone(),
                    bytes: s.transfer_bytes as u128,
                    packets: s.transfer_packets as u128,
                },
            );
            proof {
                assert(du_post == du.push(sv.user));
                lemma_absent_user_zero(pre, sv.user);
                assert forall|k: int| 0 <= k < du_post.len() implies out.deep_view()[k]
                    == spec_aggregate(post)[k] by {
                    if k < du.len() {
                        assert(du_post[k] == du[k]);
                        assert(du[k] != sv.user);
                        assert(session_bytes(sv, du[k]) == 0);
                        assert(session_packets(sv, du[k]) == 0);
                    } else {
                        assert(du_post[k] == sv.user);
                        assert(user_bytes_total(post, sv.user) == sv.transfer_bytes as int);
                        assert(user_packets_total(post, sv.user) == sv.transfer_packets as int);
                    }
                }
                assert(out.deep_view() =~= spec_aggregate(post));
            }
        }
        i = i + 1;
    }
    proof {
        assert(ssv.take(ssv.len() as int) =~= ssv);
    }
    out
}

/// One session's contribution can be split out of a sum at any position.
proof fn lemma_totals_remove(ss: Seq<HubSessionView>, j: int, u: Seq<char>)
    requires
        0 <= j < ss.len(),
    ensures
        user_bytes_total(ss, u) == user_bytes_total(ss.remove(j), u) + session_bytes(ss[j], u),
        user_packets_total(ss, u) == user_packets_total(ss.remove(j), u) + session_packets(
            ss[j],
            u,
        ),
    decreases ss.len(),
{
    if j == ss.len() - 1 {
        assert(ss.remove(j) =~= ss.drop_last());
    } else {
        assert(ss.remove(j).drop_last() =~= ss.drop_last().remove(j));
        assert(ss.remove(j).last() == ss.last());
        lemma_totals_remove(ss.drop_last(), j, u);
    }
}

/// Order independence of aggregation: two session sequences that hold the
/// same sessions, in any order and with multiplicity, give every user the
/// same summed bytes and packets.
pub proof fn lemma_aggregate_order_independent(
    s1: Seq<HubSessionView>,
    s2: Seq<HubSessionView>,
    u: Seq<char>,
)
    requires
        s1.to_multiset() == s2.to_multiset(),
    ensures
        user_bytes_total(s1, u) == user_bytes_total(s2, u),
        user_packets_total(s1, u) == user_packets_total(s2, u),
    decreases s1.len(),
{
    broadcast use vstd::seq_lib::group_to_multiset_ensures;

    if s1.len() == 0 {
        assert(s2.to_multiset().len() == 0);
        assert(s2.len() == 0);
    } else {
        let x = s1.last();
        assert(s1.contains(x));
        assert(s1.to_multiset().count(x) > 0);
        assert(s2.to_multiset().count(x) > 0);
        assert(s2.contains(x));
        let j = choose|j: int| 0 <= j < s2.len() && s2[j] == x;
        assert(s1.remove(s1.len() - 1).to_multiset() =~= s1.to_multiset().remove(x));
        assert(s1.remove(s1.len() - 1) =~= s1.drop_last());
        assert(s2.remove(j).to_multiset() =~= s2.to_multiset().remove(x));
        lemma_aggregate_order_independent(s1.drop_last(), s2.remove(j), u);
        lemma_totals_remove(s2, j, u);
    }
}

} // verus!
