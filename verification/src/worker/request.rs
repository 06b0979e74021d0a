//! Requests to the player, and how one of them is served.

use std::collections::VecDeque;
use vstd::prelude::*;

verus! {

/// A request.
pub enum ClientRequest<Q, C, S> {
    /// A question whose answer goes to the application as an event.
    Query(Q),
    /// Work without an answer.
    Command(C),
    /// A question whose answer is handed to the one who asked.
    QuerySync(S),
}

/// A question that the application hears about under `id` and `target`.
pub struct MpdQuery<I, T, F> {
    pub id: I,
    pub target: T,
    pub callback: F,
}

/// Work to do with the player.
pub struct MpdCommand<F> {
    pub callback: F,
}

/// A question whose answer goes to `tx`.
pub struct MpdQuerySync<F, X> {
    pub callback: F,
    pub tx: X,
}

/// What the application hears of a request.
#[derive(Debug)]
pub enum WorkDone<I, T, D> {
    MpdCommandFinished { id: I, target: T, data: D },
    Nothing,
}

/// Whether one of the requests in `buffer` supersedes `request`, as `skipped`
/// judges queries.
pub open spec fn is_superseded<Q, C, S, F: Fn(&Q, &Q) -> bool>(
    buffer: Seq<ClientRequest<Q, C, S>>,
    request: ClientRequest<Q, C, S>,
    skipped: F,
    verdict: bool,
) -> bool {
    if verdict {
        exists|i: int| 0 <= i < buffer.len() && #[trigger] supersedes(buffer[i], request, skipped)
    } else {
        forall|i: int|
            0 <= i < buffer.len() ==> #[trigger] leaves_alone(buffer[i], request, skipped)
    }
}

/// Both requests are queries, and `skipped` drops `request` in favour of `later`.
pub open spec fn supersedes<Q, C, S, F: Fn(&Q, &Q) -> bool>(
    later: ClientRequest<Q, C, S>,
    request: ClientRequest<Q, C, S>,
    skipped: F,
) -> bool {
    match (request, later) {
        (ClientRequest::Query(q1), ClientRequest::Query(q2)) => call_ensures(
            skipped,
            (&q1, &q2),
            true,
        ),
        _ => false,
    }
}

/// One of the requests is no query, or `skipped` keeps `request` beside `later`.
pub open spec fn leaves_alone<Q, C, S, F: Fn(&Q, &Q) -> bool>(
    later: ClientRequest<Q, C, S>,
    request: ClientRequest<Q, C, S>,
    skipped: F,
) -> bool {
    match (request, later) {
        (ClientRequest::Query(q1), ClientRequest::Query(q2)) => call_ensures(
            skipped,
            (&q1, &q2),
            false,
        ),
        _ => true,
    }
}

/// Whether a request need not be served because a query that came after it
/// replaces it.
///
/// `skipped` tells whether its first query is replaced by its second.
pub fn should_skip_request<Q, C, S, F: Fn(&Q, &Q) -> bool>(
    buffer: &VecDeque<ClientRequest<Q, C, S>>,
    request: &ClientRequest<Q, C, S>,
    skipped: &F,
) -> (r: bool)
    requires
        forall|q1: &Q, q2: &Q| #[trigger] call_requires(*skipped, (q1, q2)),
    ensures
        is_superseded(buffer@, *request, *skipped, r),
{
    let mut i: usize = 0;
    while i < buffer.len()
        invariant
            i <= buffer@.len(),
            forall|q1: &Q, q2: &Q| #[trigger] call_requires(*skipped, (q1, q2)),
            forall|j: int|
                0 <= j < i ==> #[trigger] leaves_alone(buffer@[j], *request, *skipped),
        decreases buffer@.len() - i,
    {
        if let (ClientRequest::Query(q1), ClientRequest::Query(q2)) = (request, &buffer[i]) {
            if skipped(q1, q2) {
                assert(supersedes(buffer@[i as int], *request, *skipped));
                return true;
            }
        }
        assert(leaves_alone(buffer@[i as int], *request, *skipped));
        i = i + 1;
    }
    false
}

/// Serves one request with the player.
pub fn handle_client_request<P, I, T, D, A, E, FQ, FC, FS, X>(
    client: &mut P,
    request: ClientRequest<MpdQuery<I, T, FQ>, MpdCommand<FC>, MpdQuerySync<FS, X>>,
) -> (r: Result<WorkDone<I, T, D>, E>) where
    FQ: FnOnce(&mut P) -> Result<D, E>,
    FC: FnOnce(&mut P) -> Result<(), E>,
    FS: FnOnce(&mut P) -> Result<A, E>,
    X: FnOnce(A) -> Result<(), E>,

    requires
        request matches ClientRequest::Query(q) ==> forall|c: &mut P| #[trigger]
            call_requires(q.callback, (c,)),
        request matches ClientRequest::Command(q) ==> forall|c: &mut P| #[trigger]
            call_requires(q.callback, (c,)),
        request matches ClientRequest::QuerySync(q) ==> forall|c: &mut P| #[trigger]
            call_requires(q.callback, (c,)),
        request matches ClientRequest::QuerySync(q) ==> forall|a: A| #[trigger]
            call_requires(q.tx, (a,)),
    ensures
        match request {
            ClientRequest::Query(q) => exists|c: &mut P, answer: Result<D, E>|
                {
                    &&& #[trigger] call_ensures(q.callback, (c,), answer)
                    &&& *c == *old(client)
                    &&& *final(c) == *final(client)
                    &&& match answer {
                        Ok(data) => r == Ok::<WorkDone<I, T, D>, E>(
                            WorkDone::MpdCommandFinished { id: q.id, target: q.target, data },
                        ),
                        Err(e) => r == Err::<WorkDone<I, T, D>, E>(e),
                    }
                },
            ClientRequest::Command(q) => exists|c: &mut P, answer: Result<(), E>|
                {
                    &&& #[trigger] call_ensures(q.callback, (c,), answer)
                    &&& *c == *old(client)
                    &&& *final(c) == *final(client)
                    &&& match answer {
                        Ok(_) => r == Ok::<WorkDone<I, T, D>, E>(WorkDone::Nothing),
                        Err(e) => r == Err::<WorkDone<I, T, D>, E>(e),
                    }
                },
            ClientRequest::QuerySync(q) => exists|c: &mut P, answer: Result<A, E>|
                {
                    &&& #[trigger] call_ensures(q.callback, (c,), answer)
                    &&& *c == *old(client)
                    &&& *final(c) == *final(client)
                    &&& match answer {
                        Ok(a) => exists|sent: Result<(), E>|
                            {
                                &&& #[trigger] call_ensures(q.tx, (a,), sent)
                                &&& match sent {
                                    Ok(_) => r == Ok::<WorkDone<I, T, D>, E>(WorkDone::Nothing),
                                    Err(e) => r == Err::<WorkDone<I, T, D>, E>(e),
                                }
                            },
                        Err(e) => r == Err::<WorkDone<I, T, D>, E>(e),
                    }
                },
        },
{
    match request {
        ClientRequest::Query(query) => match (query.callback)(client) {
            Ok(data) => Ok(
                WorkDone::MpdCommandFinished { id: query.id, target: query.target, data },
            ),
            Err(e) => Err(e),
        },
        ClientRequest::Command(command) => match (command.callback)(client) {
            Ok(_) => Ok(WorkDone::Nothing),
            Err(e) => Err(e),
        },
        ClientRequest::QuerySync(query) => match (query.callback)(client) {
            Ok(answer) => match (query.tx)(answer) {
                Ok(_) => Ok(WorkDone::Nothing),
                Err(e) => Err(e),
            },
            Err(e) => Err(e),
        },
    }
}

/// Work and questions that someone waits for are always served; only queries
/// can be skipped, and only for the sake of a query.
pub proof fn law_only_queries_are_skipped<Q, C, S, F: Fn(&Q, &Q) -> bool>(
    buffer: Seq<ClientRequest<Q, C, S>>,
    request: ClientRequest<Q, C, S>,
    skipped: F,
)
    requires
        is_superseded(buffer, request, skipped, true),
    ensures
        request is Query,
        exists|i: int| 0 <= i < buffer.len() && #[trigger] buffer[i] is Query,
{
    let i = choose|i: int|
        0 <= i < buffer.len() && #[trigger] supersedes(buffer[i], request, skipped);
    assert(buffer[i] is Query);
}

/// A request behind which no other waits is never skipped.
pub proof fn law_the_last_request_is_served<Q, C, S, F: Fn(&Q, &Q) -> bool>(
    request: ClientRequest<Q, C, S>,
    skipped: F,
    verdict: bool,
)
    requires
        is_superseded(Seq::<ClientRequest<Q, C, S>>::empty(), request, skipped, verdict),
    ensures
        !verdict,
{
}

/// Requests that come in one after the other supersede a request where one
/// batch or the other does, and leave it alone where both do.
pub proof fn law_batches_decide_together<Q, C, S, F: Fn(&Q, &Q) -> bool>(
    first: Seq<ClientRequest<Q, C, S>>,
    second: Seq<ClientRequest<Q, C, S>>,
    request: ClientRequest<Q, C, S>,
    skipped: F,
)
    ensures
        is_superseded(first + second, request, skipped, true) <==> is_superseded(
            first,
            request,
            skipped,
            true,
        ) || is_superseded(second, request, skipped, true),
        is_superseded(first + second, request, skipped, false) <==> is_superseded(
            first,
            request,
            skipped,
            false,
        ) && is_superseded(second, request, skipped, false),
{
    let both = first + second;
    assert(forall|i: int| 0 <= i < first.len() ==> both[i] == #[trigger] first[i]);
    assert(forall|i: int|
        0 <= i < second.len() ==> both[first.len() + i] == #[trigger] second[i]);
    if is_superseded(both, request, skipped, true) {
        let i = choose|i: int|
            0 <= i < both.len() && #[trigger] supersedes(both[i], request, skipped);
        if i < first.len() {
            assert(supersedes(first[i], request, skipped));
        } else {
            assert(supersedes(second[i - first.len()], request, skipped));
        }
    }
    if is_superseded(first, request, skipped, true) {
        let i = choose|i: int|
            0 <= i < first.len() && #[trigger] supersedes(first[i], request, skipped);
        assert(supersedes(both[i], request, skipped));
    }
    if is_superseded(second, request, skipped, true) {
        let i = choose|i: int|
            0 <= i < second.len() && #[trigger] supersedes(second[i], request, skipped);
        assert(supersedes(both[first.len() + i], request, skipped));
    }
    if is_superseded(both, request, skipped, false) {
        assert forall|i: int| 0 <= i < first.len() implies #[trigger] leaves_alone(
            first[i],
            request,
            skipped,
        ) by {
            assert(leaves_alone(both[i], request, skipped));
        }
        assert forall|i: int| 0 <= i < second.len() implies #[trigger] leaves_alone(
            second[i],
            request,
            skipped,
        ) by {
            assert(leaves_alone(both[first.len() + i], request, skipped));
        }
    }
    if is_superseded(first, request, skipped, false) && is_superseded(
        second,
        request,
        skipped,
        false,
    ) {
        assert forall|i: int| 0 <= i < both.len() implies #[trigger] leaves_alone(
            both[i],
            request,
            skipped,
        ) by {
            if i < first.len() {
                assert(leaves_alone(first[i], request, skipped));
            } else {
                assert(leaves_alone(second[i - first.len()], request, skipped));
            }
        }
    }
}

/// Where `skipped` gives one answer for the same queries, the verdict on two
/// batches in a row is that on the one or that on the other.
pub proof fn law_verdict_on_batches<Q, C, S, F: Fn(&Q, &Q) -> bool>(
    first: Seq<ClientRequest<Q, C, S>>,
    second: Seq<ClientRequest<Q, C, S>>,
    request: ClientRequest<Q, C, S>,
    skipped: F,
    on_first: bool,
    on_second: bool,
    on_both: bool,
)
    requires
        forall|q1: &Q, q2: &Q|
            !(#[trigger] call_ensures(skipped, (q1, q2), true) && call_ensures(
                skipped,
                (q1, q2),
                false,
            )),
        is_superseded(first, request, skipped, on_first),
        is_superseded(second, request, skipped, on_second),
        is_superseded(first + second, request, skipped, on_both),
    ensures
        on_both == (on_first || on_second),
        on_first ==> on_both,
{
    law_batches_decide_together(first, second, request, skipped);
    assert(!(is_superseded(first + second, request, skipped, true) && is_superseded(
        first + second,
        request,
        skipped,
        false,
    ))) by {
        if is_superseded(first + second, request, skipped, true) {
            let both = first + second;
            let i = choose|i: int|
                0 <= i < both.len() && #[trigger] supersedes(both[i], request, skipped);
            assert(!leaves_alone(both[i], request, skipped));
        }
    }
}

/// The order in which the later requests came does not matter.
pub proof fn law_order_of_later_requests<Q, C, S, F: Fn(&Q, &Q) -> bool>(
    buffer: Seq<ClientRequest<Q, C, S>>,
    other: Seq<ClientRequest<Q, C, S>>,
    request: ClientRequest<Q, C, S>,
    skipped: F,
    verdict: bool,
)
    requires
        buffer.to_multiset() == other.to_multiset(),
        is_superseded(buffer, request, skipped, verdict),
    ensures
        is_superseded(other, request, skipped, verdict),
{
    buffer.to_multiset_ensures();
    other.to_multiset_ensures();
    if verdict {
        let i = choose|i: int|
            0 <= i < buffer.len() && #[trigger] supersedes(buffer[i], request, skipped);
        assert(buffer.contains(buffer[i]));
        assert(other.to_multiset().count(buffer[i]) > 0);
        let j = choose|j: int| 0 <= j < other.len() && other[j] == buffer[i];
        assert(supersedes(other[j], request, skipped));
    } else {
        assert forall|j: int| 0 <= j < other.len() implies #[trigger] leaves_alone(
            other[j],
            request,
            skipped,
        ) by {
            assert(other.contains(other[j]));
            assert(buffer.to_multiset().count(other[j]) > 0);
            let i = choose|i: int| 0 <= i < buffer.len() && buffer[i] == other[j];
            assert(leaves_alone(buffer[i], request, skipped));
        }
    }
}

} // verus!
