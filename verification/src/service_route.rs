//! Routing of a test request to the connected peers that advertise its service.

use crate::echo_status::{self, test_echo_status_response_payload};
use crate::node::{self, peer_node_id, NodeId};
use crate::types::{copy_bytes, Frame, ZakuraPeerId};
use crate::vec_map::MapKey;
use vstd::prelude::*;

verus! {

/// A peer to ask.
#[derive(Copy, Clone, Debug, PartialEq, Eq)]
pub struct RouteAsk {
    /// The position of its handle.
    pub handle: usize,
    /// The peer.
    pub node: NodeId,
    /// Whether it does not advertise the service.
    pub fallback: bool,
}

/// The answer to a routed request.
#[derive(Clone, Debug, PartialEq, Eq)]
pub struct ZakuraTestServiceResponse {
    /// The peer that answered.
    pub responder: NodeId,
    /// Its answer.
    pub payload: Vec<u8>,
    /// Whether it does not advertise the service.
    pub used_fallback: bool,
    /// The advertising peers that failed before.
    pub failed_service_candidates: Vec<NodeId>,
}

/// Whether the first handle of a node is at `at`.
pub open spec fn first_handle(nodes: Seq<Option<NodeId>>, node: NodeId, at: int) -> bool {
    &&& 0 <= at < nodes.len()
    &&& nodes[at] == Some(node)
    &&& forall|j: int| 0 <= j < at ==> nodes[j] != Some(node)
}

/// The nodes behind handles, given their peers' identities.
pub fn handle_nodes(peers: &Vec<ZakuraPeerId>) -> (nodes: Vec<Option<NodeId>>)
    ensures
        nodes@.len() == peers@.len(),
        forall|i: int|
            0 <= i < nodes@.len() ==> match #[trigger] nodes@[i] {
                Some(node) => node::node_of(peers@[i]@, node),
                None => peers@[i]@.len() != 32 || !node::is_public_key(peers@[i]@),
            },
{
    let mut nodes: Vec<Option<NodeId>> = Vec::new();
    let mut i: usize = 0;
    while i < peers.len()
        invariant
            i <= peers@.len(),
            nodes@.len() == i,
            forall|j: int|
                0 <= j < nodes@.len() ==> match #[trigger] nodes@[j] {
                    Some(node) => node::node_of(peers@[j]@, node),
                    None => peers@[j]@.len() != 32 || !node::is_public_key(peers@[j]@),
                },
        decreases peers@.len() - i,
    {
        nodes.push(peer_node_id(&peers[i]));
        i = i + 1;
    }
    nodes
}

/// The first handle of a node.
pub fn select_handle_for_node_id(nodes: &Vec<Option<NodeId>>, node: NodeId) -> (found: Option<
    usize,
>)
    ensures
        match found {
            Some(at) => first_handle(nodes@, node, at as int),
            None => forall|j: int| 0 <= j < nodes@.len() ==> nodes@[j] != Some(node),
        },
{
    let mut i: usize = 0;
    while i < nodes.len()
        invariant
            i <= nodes@.len(),
            forall|j: int| 0 <= j < i ==> nodes@[j] != Some(node),
        decreases nodes@.len() - i,
    {
        if let Some(candidate) = &nodes[i] {
            if candidate.same_key(&node) {
                return Some(i);
            }
        }
        i = i + 1;
    }
    None
}

/// Whether a node is listed.
fn lists(nodes: &Vec<NodeId>, node: &NodeId) -> (listed: bool)
    ensures
        listed == nodes@.contains(*node),
{
    let mut i: usize = 0;
    while i < nodes.len()
        invariant
            i <= nodes@.len(),
            forall|j: int| 0 <= j < i ==> nodes@[j] != *node,
        decreases nodes@.len() - i,
    {
        if nodes[i].same_key(node) {
            return true;
        }
        i = i + 1;
    }
    false
}

/// The payload of an answer: there is exactly one frame, and it carries a request id
/// before the payload.
pub fn single_echo_payload(frames: &Vec<Frame>) -> (payload: Option<Vec<u8>>)
    ensures
        match payload {
            Some(payload) => frames@.len() == 1 && (echo_status::echo_payload(
                frames@[0]@.payload,
            ) matches Ok((_, rest)) && rest == payload@),
            None => frames@.len() != 1 || echo_status::echo_payload(frames@[0]@.payload) is Err,
        },
{
    if frames.len() != 1 {
        return None;
    }
    match test_echo_status_response_payload(frames[0].payload.as_slice()) {
        Ok((_, rest)) => Some(copy_bytes(rest)),
        Err(_) => None,
    }
}

/// The nodes of `candidates` from `from` up to `to` that have no handle.
pub open spec fn unreachable(
    candidates: Seq<NodeId>,
    nodes: Seq<Option<NodeId>>,
    from: int,
    to: int,
) -> bool {
    forall|i: int| from <= i < to ==> !nodes.contains(Some(#[trigger] candidates[i]))
}

/// Whether the handles from `from` up to `to` belong to no node, or to a candidate.
pub open spec fn passed_over(
    candidates: Seq<NodeId>,
    nodes: Seq<Option<NodeId>>,
    from: int,
    to: int,
) -> bool {
    forall|i: int| from <= i < to ==> is_candidate(candidates, #[trigger] nodes[i])
}

/// Whether a handle belongs to no node, or to a candidate.
pub open spec fn is_candidate(candidates: Seq<NodeId>, node: Option<NodeId>) -> bool {
    match node {
        Some(node) => candidates.contains(node),
        None => true,
    }
}

/// A request on its way: first to the advertising peers in order, then to every other
/// connected peer in order.
#[derive(Debug)]
pub struct EchoRoute {
    /// The advertising connected peers.
    pub candidates: Vec<NodeId>,
    /// The nodes behind the connected peers' handles.
    pub nodes: Vec<Option<NodeId>>,
    /// The advertising peers that failed.
    pub failed: Vec<NodeId>,
    /// The next advertising peer.
    pub next_candidate: usize,
    /// The next handle.
    pub next_handle: usize,
}

impl EchoRoute {
    /// The positions are within the lists, and fallback starts after the last candidate.
    /// The failed peers are the candidates up to the next one.
    pub open spec fn wf(&self) -> bool {
        &&& self.next_candidate <= self.candidates@.len()
        &&& self.next_handle <= self.nodes@.len()
        &&& self.next_handle > 0 ==> self.next_candidate == self.candidates@.len()
        &&& self.failed@ == self.candidates@.take(self.next_candidate as int)
    }

    /// A request that has asked nobody yet.
    pub fn new(candidates: Vec<NodeId>, nodes: Vec<Option<NodeId>>) -> (route: Self)
        ensures
            route.wf(),
            route.candidates@ == candidates@,
            route.nodes@ == nodes@,
            route.failed@.len() == 0,
            route.next_candidate == 0,
            route.next_handle == 0,
    {
        let route = EchoRoute {
            candidates,
            nodes,
            failed: Vec::new(),
            next_candidate: 0,
            next_handle: 0,
        };
        assert(route.failed@ =~= route.candidates@.take(0));
        route
    }

    /// Whom to ask next. Advertising peers without a handle are passed over as failed;
    /// other peers are asked only when no advertising peer is left, and never one that
    /// failed as an advertising peer.
    pub fn next_ask(&mut self) -> (ask: Option<RouteAsk>)
        requires
            old(self).wf(),
        ensures
            final(self).wf(),
            final(self).candidates@ == old(self).candidates@,
            final(self).nodes@ == old(self).nodes@,
            final(self).next_candidate >= old(self).next_candidate,
            final(self).next_handle >= old(self).next_handle,
            unreachable(
                old(self).candidates@,
                old(self).nodes@,
                old(self).next_candidate as int,
                final(self).next_candidate as int,
            ),
            passed_over(
                old(self).candidates@,
                old(self).nodes@,
                old(self).next_handle as int,
                final(self).next_handle as int,
            ),
            match ask {
                Some(ask) => if ask.fallback {
                    &&& final(self).next_candidate == old(self).candidates@.len()
                    &&& final(self).next_handle < old(self).nodes@.len()
                    &&& ask.handle == final(self).next_handle
                    &&& old(self).nodes@[ask.handle as int] == Some(ask.node)
                    &&& !old(self).candidates@.contains(ask.node)
                } else {
                    &&& final(self).next_candidate < old(self).candidates@.len()
                    &&& final(self).next_handle == old(self).next_handle
                    &&& ask.node == old(self).candidates@[final(self).next_candidate as int]
                    &&& first_handle(old(self).nodes@, ask.node, ask.handle as int)
                },
                None => final(self).next_candidate == old(self).candidates@.len()
                    && final(self).next_handle == old(self).nodes@.len(),
            },
    {
        let ghost start = self.next_candidate as int;
        let ghost first = self.next_handle as int;
        while self.next_candidate < self.candidates.len()
            invariant
                self.wf(),
                self.candidates@ == old(self).candidates@,
                self.nodes@ == old(self).nodes@,
                start == old(self).next_candidate,
                first == old(self).next_handle,
                start <= self.next_candidate,
                self.next_handle == first,
                unreachable(
                    self.candidates@,
                    self.nodes@,
                    start,
                    self.next_candidate as int,
                ),
            decreases self.candidates@.len() - self.next_candidate,
        {
            let node = self.candidates[self.next_candidate];
            match select_handle_for_node_id(&self.nodes, node) {
                Some(handle) => {
                    return Some(RouteAsk { handle, node, fallback: false });
                },
                None => {
                    self.failed.push(node);
                    self.next_candidate = self.next_candidate + 1;
                    assert(self.failed@ =~= self.candidates@.take(self.next_candidate as int));
                },
            }
        }
        assert(self.candidates@.take(self.next_candidate as int) =~= self.candidates@);
        while self.next_handle < self.nodes.len()
            invariant
                self.wf(),
                self.candidates@ == old(self).candidates@,
                self.nodes@ == old(self).nodes@,
                start == old(self).next_candidate,
                first == old(self).next_handle,
                start <= self.next_candidate,
                self.next_candidate == self.candidates@.len(),
                self.failed@ == self.candidates@,
                first <= self.next_handle,
                unreachable(
                    self.candidates@,
                    self.nodes@,
                    start,
                    self.next_candidate as int,
                ),
                passed_over(self.candidates@, self.nodes@, first, self.next_handle as int),
            decreases self.nodes@.len() - self.next_handle,
        {
            let at: usize = self.next_handle;
            if let Some(node) = self.nodes[at] {
                if !lists(&self.failed, &node) {
                    return Some(RouteAsk { handle: at, node, fallback: true });
                }
            }
            self.next_handle = self.next_handle + 1;
        }
        None
    }

    /// Notes that the peer that was asked failed.
    pub fn on_failure(&mut self, ask: &RouteAsk)
        requires
            old(self).wf(),
            if ask.fallback {
                old(self).next_candidate == old(self).candidates@.len() && old(self).next_handle
                    < old(self).nodes@.len()
            } else {
                old(self).next_candidate < old(self).candidates@.len() && ask.node == old(self).candidates@[old(self).next_candidate as int]
            },
        ensures
            final(self).wf(),
            final(self).candidates@ == old(self).candidates@,
            final(self).nodes@ == old(self).nodes@,
            if ask.fallback {
                &&& final(self).next_handle == old(self).next_handle + 1
                &&& final(self).next_candidate == old(self).next_candidate
            } else {
                &&& final(self).next_candidate == old(self).next_candidate + 1
                &&& final(self).next_handle == old(self).next_handle
            },
    {
        if ask.fallback {
            if self.next_handle < self.nodes.len() {
                self.next_handle = self.next_handle + 1;
            }
        } else if self.next_candidate < self.candidates.len() {
            self.failed.push(ask.node);
            self.next_candidate = self.next_candidate + 1;
            assert(self.failed@ =~= self.candidates@.take(self.next_candidate as int));
        }
    }

    /// The answer of the peer that was asked.
    pub fn on_answer(self, ask: &RouteAsk, payload: Vec<u8>) -> (response:
        ZakuraTestServiceResponse)
        requires
            self.wf(),
        ensures
            response.responder == ask.node,
            response.payload@ == payload@,
            response.used_fallback == ask.fallback,
            response.failed_service_candidates@ == self.candidates@.take(
                self.next_candidate as int,
            ),
    {
        ZakuraTestServiceResponse {
            responder: ask.node,
            payload,
            used_fallback: ask.fallback,
            failed_service_candidates: self.failed,
        }
    }
}

/// What passing peers over means: an advertising peer is passed over only where no handle is
/// its own, and a handle only where it belongs to no node or to an advertising peer. The
/// handle of a node is the first that is its own.
pub proof fn law_only_peers_that_cannot_answer_are_passed_over(
    candidates: Seq<NodeId>,
    nodes: Seq<Option<NodeId>>,
    from: int,
    to: int,
    i: int,
    node: NodeId,
)
    requires
        from <= i < to,
    ensures
        0 <= i < candidates.len() && unreachable(candidates, nodes, from, to) ==> forall|j: int|
            0 <= j < nodes.len() ==> #[trigger] nodes[j] != Some(candidates[i]),
        0 <= i < nodes.len() && passed_over(candidates, nodes, from, to) && nodes[i] == Some(node)
            ==> candidates.contains(node),
        first_handle(nodes, node, i) ==> 0 <= i < nodes.len() && nodes[i] == Some(node)
            && forall|j: int| 0 <= j < i ==> #[trigger] nodes[j] != Some(node),
{
    if 0 <= i < candidates.len() && unreachable(candidates, nodes, from, to) {
        assert(!nodes.contains(Some(candidates[i])));
        assert forall|j: int| 0 <= j < nodes.len() implies #[trigger] nodes[j] != Some(
            candidates[i],
        ) by {
            if nodes[j] == Some(candidates[i]) {
                assert(nodes.contains(Some(candidates[i])));
            }
        }
    }
    if 0 <= i < nodes.len() && passed_over(candidates, nodes, from, to) {
        assert(is_candidate(candidates, nodes[i]));
    }
}

} // verus!
