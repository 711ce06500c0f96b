//! What holds of every connection to a server: how long the readiness probe
//! goes on, and which candidate password is settled on.

use vstd::prelude::*;
use crate::exchange::{Outcome, Reply};
use crate::failure::SonarFailureView;
use crate::sonar_api::{verdict_of, SonarApiView, PROBE_INTERVAL_MILLIS};

verus! {

/// As long as no probe was answered with a success, probing from attempt
/// `tried` goes on up to the budget and then gives up.
proof fn lemma_probing_goes_on(url: Seq<char>, attempts: nat, replies: Seq<Reply>, tried: nat)
    requires
        forall|i: int| 0 <= i < replies.len() ==> !(#[trigger] replies[i]).succeeded(),
        tried <= replies.len(),
        tried <= attempts,
    ensures
        SonarApiView::wait_ready_from(url, attempts, replies, tried) == (if replies.len()
            < attempts {
            Outcome::<()>::Send(
                SonarApiView::probe(
                    url,
                    if replies.len() == 0 {
                        0
                    } else {
                        PROBE_INTERVAL_MILLIS
                    },
                ),
            )
        } else {
            Outcome::<()>::Fail(SonarFailureView::Unreachable { attempts })
        }),
    decreases attempts - tried,
{
    if tried < attempts && tried < replies.len() {
        lemma_probing_goes_on(url, attempts, replies, tried + 1);
    }
}

/// The readiness probe is bounded. Against a server that never answers
/// with a success, a probe is asked for after each of the first `attempts`
/// failures (none before the first probe), each but the first after the
/// fixed pause; once `attempts` probes have failed, the run is over and the
/// server is reported unreachable. So exactly `attempts` probes are sent.
pub proof fn lemma_readiness_is_bounded(url: Seq<char>, attempts: nat, replies: Seq<Reply>)
    requires
        forall|i: int| 0 <= i < replies.len() ==> !(#[trigger] replies[i]).succeeded(),
    ensures
        replies.len() < attempts ==> SonarApiView::wait_ready(url, attempts, replies)
            == Outcome::<()>::Send(
            SonarApiView::probe(
                url,
                if replies.len() == 0 {
                    0
                } else {
                    PROBE_INTERVAL_MILLIS
                },
            ),
        ),
        replies.len() >= attempts ==> SonarApiView::wait_ready(url, attempts, replies)
            == Outcome::<()>::Fail(SonarFailureView::Unreachable { attempts }),
{
    if replies.len() < attempts {
        lemma_probing_goes_on(url, attempts, replies, 0);
    } else {
        lemma_probing_gives_up(url, attempts, replies, 0);
    }
}

/// With at least `attempts` probes failed, probing from any attempt gives
/// up.
proof fn lemma_probing_gives_up(url: Seq<char>, attempts: nat, replies: Seq<Reply>, tried: nat)
    requires
        forall|i: int| 0 <= i < replies.len() ==> !(#[trigger] replies[i]).succeeded(),
        replies.len() >= attempts,
        tried <= attempts,
    ensures
        SonarApiView::wait_ready_from(url, attempts, replies, tried) == Outcome::<()>::Fail(
            SonarFailureView::Unreachable { attempts },
        ),
    decreases attempts - tried,
{
    if tried < attempts {
        lemma_probing_gives_up(url, attempts, replies, tried + 1);
    }
}

/// The first success ends the probing: the run is done with the reply that
/// brought it, however many replies follow.
pub proof fn lemma_first_success_ends_probing(url: Seq<char>, attempts: nat, replies: Seq<Reply>, first: nat)
    requires
        first < attempts,
        first < replies.len(),
        replies[first as int].succeeded(),
        forall|i: int| 0 <= i < first ==> !(#[trigger] replies[i]).succeeded(),
    ensures
        SonarApiView::wait_ready(url, attempts, replies) == Outcome::Done((), first + 1),
{
    lemma_probing_reaches(url, attempts, replies, first, 0);
}

proof fn lemma_probing_reaches(url: Seq<char>, attempts: nat, replies: Seq<Reply>, first: nat, tried: nat)
    requires
        first < attempts,
        first < replies.len(),
        replies[first as int].succeeded(),
        forall|i: int| 0 <= i < first ==> !(#[trigger] replies[i]).succeeded(),
        tried <= first,
    ensures
        SonarApiView::wait_ready_from(url, attempts, replies, tried) == Outcome::Done(
            (),
            first + 1,
        ),
    decreases first - tried,
{
    if tried < first {
        lemma_probing_reaches(url, attempts, replies, first, tried + 1);
    }
}

/// The candidates that are present, in order.
pub open spec fn present(candidates: Seq<Option<Seq<char>>>) -> Seq<Seq<char>>
    decreases candidates.len(),
{
    if candidates.len() == 0 {
        Seq::empty()
    } else {
        match candidates[0] {
            Some(password) => seq![password] + present(candidates.skip(1)),
            None => present(candidates.skip(1)),
        }
    }
}

/// The candidates are tried in order and the first valid one wins. Where
/// the server rejects the first `winner` candidates that are present and
/// calls the next one valid, that one is the password, and no candidate
/// after it is ever tried: the run is done with the reply that called it
/// valid.
pub proof fn lemma_first_valid_candidate_wins(
    url: Seq<char>,
    username: Seq<char>,
    candidates: Seq<Option<Seq<char>>>,
    replies: Seq<Reply>,
    winner: nat,
)
    requires
        winner < present(candidates).len(),
        winner < replies.len(),
        forall|i: int| 0 <= i < winner ==> verdict_of(#[trigger] replies[i]) is Rejected,
        verdict_of(replies[winner as int]) is Valid,
    ensures
        SonarApiView::find_password(url, username, candidates, replies) == Outcome::Done(
            present(candidates)[winner as int],
            winner + 1,
        ),
    decreases candidates.len(),
{
    if candidates.len() > 0 {
        match candidates[0] {
            None => {
                lemma_first_valid_candidate_wins(url, username, candidates.skip(1), replies, winner);
            },
            Some(password) => {
                if winner > 0 {
                    assert(verdict_of(replies[0]) is Rejected);
                    let rest = replies.skip(1);
                    assert forall|i: int| 0 <= i < winner - 1 implies verdict_of(
                        #[trigger] rest[i],
                    ) is Rejected by {
                        assert(rest[i] == replies[i + 1]);
                    }
                    assert(rest[winner - 1] == replies[winner as int]);
                    lemma_first_valid_candidate_wins(
                        url,
                        username,
                        candidates.skip(1),
                        rest,
                        (winner - 1) as nat,
                    );
                }
            },
        }
    }
}

/// Where the server rejects every candidate that is present, the run fails
/// for want of a password, naming the user.
pub proof fn lemma_no_valid_candidate_fails(
    url: Seq<char>,
    username: Seq<char>,
    candidates: Seq<Option<Seq<char>>>,
    replies: Seq<Reply>,
)
    requires
        replies.len() >= present(candidates).len(),
        forall|i: int|
            0 <= i < present(candidates).len() ==> verdict_of(#[trigger] replies[i]) is Rejected,
    ensures
        SonarApiView::find_password(url, username, candidates, replies) is Fail,
        SonarApiView::find_password(url, username, candidates, replies)->Fail_0
            == (SonarFailureView::AuthenticationFailed { username }),
    decreases candidates.len(),
{
    if candidates.len() > 0 {
        match candidates[0] {
            None => {
                lemma_no_valid_candidate_fails(url, username, candidates.skip(1), replies);
            },
            Some(password) => {
                assert(verdict_of(replies[0]) is Rejected);
                let rest = replies.skip(1);
                assert forall|i: int| 0 <= i < present(candidates.skip(1)).len() implies verdict_of(
                    #[trigger] rest[i],
                ) is Rejected by {
                    assert(rest[i] == replies[i + 1]);
                }
                lemma_no_valid_candidate_fails(url, username, candidates.skip(1), rest);
            },
        }
    }
}

} // verus!
