//! The registered delivery endpoints, and which delivery calls a cycle makes.

use vstd::prelude::*;
use vstd::string::*;

verus! {

/// A registered delivery target.
#[derive(Debug)]
pub struct Endpoint {
    /// The identifier under which the platform knows the endpoint.
    pub id: u64,
    /// The secret that a delivery call presents; an endpoint without one is
    /// passed over.
    pub token: Option<String>,
    /// The label that the endpoint was given, if any.
    pub name: Option<String>,
    /// The user who created the endpoint, if the platform tells.
    pub owner: Option<u64>,
}

/// What an endpoint holds, as plain mathematical values.
pub struct EndpointView {
    pub id: u64,
    pub token: Option<Seq<char>>,
    pub name: Option<Seq<char>>,
    pub owner: Option<u64>,
}

impl View for Endpoint {
    type V = EndpointView;

    open spec fn view(&self) -> EndpointView {
        EndpointView {
            id: self.id,
            token: self.token.deep_view(),
            name: self.name.deep_view(),
            owner: self.owner,
        }
    }
}

impl Clone for Endpoint {
    fn clone(&self) -> (r: Self)
        ensures
            r@ == self@,
    {
        let token = match &self.token {
            Some(t) => Some(t.clone()),
            None => None,
        };
        let name = match &self.name {
            Some(n) => Some(n.clone()),
            None => None,
        };
        Endpoint { id: self.id, token, name, owner: self.owner }
    }
}

/// The views of a sequence of endpoints, in the same order.
pub open spec fn endpoint_views(endpoints: Seq<Endpoint>) -> Seq<EndpointView> {
    endpoints.map_values(|e: Endpoint| e@)
}

/// One delivery call: a batch, named by its position, sent to an endpoint.
#[derive(Debug)]
pub struct DeliveryCall {
    pub endpoint: u64,
    pub token: String,
    pub batch: usize,
}

/// What a delivery call holds, as plain mathematical values.
pub struct DeliveryCallView {
    pub endpoint: u64,
    pub token: Seq<char>,
    pub batch: int,
}

impl View for DeliveryCall {
    type V = DeliveryCallView;

    open spec fn view(&self) -> DeliveryCallView {
        DeliveryCallView { endpoint: self.endpoint, token: self.token@, batch: self.batch as int }
    }
}

/// The views of a sequence of delivery calls, in the same order.
pub open spec fn call_views(calls: Seq<DeliveryCall>) -> Seq<DeliveryCallView> {
    calls.map_values(|c: DeliveryCall| c@)
}

/// The calls that one endpoint receives: one per batch, in batch order, and
/// none at all where the endpoint has no token.
pub open spec fn calls_for(endpoint: EndpointView, batches: nat) -> Seq<DeliveryCallView> {
    match endpoint.token {
        None => Seq::empty(),
        Some(token) => Seq::new(
            batches,
            |b: int| DeliveryCallView { endpoint: endpoint.id, token, batch: b },
        ),
    }
}

/// The calls of a cycle: endpoint by endpoint in registry order, and for each
/// endpoint batch by batch.
pub open spec fn planned_calls(endpoints: Seq<EndpointView>, batches: nat) -> Seq<
    DeliveryCallView,
> {
    endpoints.map_values(|e: EndpointView| calls_for(e, batches)).flatten()
}

/// Lists the delivery calls of a cycle: every batch to every endpoint that
/// has a token.
pub fn plan_calls(endpoints: &Vec<Endpoint>, batches: usize) -> (calls: Vec<DeliveryCall>)
    ensures
        call_views(calls@) == planned_calls(endpoint_views(endpoints@), batches as nat),
{
    let ghost targets = endpoint_views(endpoints@);
    let ghost each = |e: EndpointView| calls_for(e, batches as nat);
    let mut calls: Vec<DeliveryCall> = Vec::new();
    let mut i: usize = 0;
    assert(targets.subrange(0, 0).map_values(each) =~= Seq::<Seq<DeliveryCallView>>::empty());
    assert(call_views(calls@) =~= Seq::<DeliveryCallView>::empty());
    while i < endpoints.len()
        invariant
            i <= endpoints.len(),
            targets == endpoint_views(endpoints@),
            each == |e: EndpointView| calls_for(e, batches as nat),
            call_views(calls@) == targets.subrange(0, i as int).map_values(each).flatten(),
        decreases endpoints.len() - i,
    {
        let ghost before = call_views(calls@);
        let ghost done = targets.subrange(0, i as int).map_values(each);
        assert(targets[i as int] == endpoints@[i as int]@);
        proof {
            assert(targets.subrange(0, i as int + 1).map_values(each) =~= done.push(
                calls_for(targets[i as int], batches as nat),
            ));
            done.lemma_flatten_push(calls_for(targets[i as int], batches as nat));
        }
        match &endpoints[i].token {
            Some(token) => {
                let mut b: usize = 0;
                while b < batches
                    invariant
                        b <= batches,
                        i < endpoints.len(),
                        targets == endpoint_views(endpoints@),
                        targets[i as int].token == Some(token@),
                        targets[i as int].id == endpoints@[i as int].id,
                        call_views(calls@) == before + calls_for(
                            targets[i as int],
                            batches as nat,
                        ).subrange(0, b as int),
                    decreases batches - b,
                {
                    let ghost sofar = call_views(calls@);
                    let call = DeliveryCall {
                        endpoint: endpoints[i].id,
                        token: token.clone(),
                        batch: b,
                    };
                    calls.push(call);
                    assert(call_views(calls@) =~= sofar.push(call@));
                    assert(call_views(calls@) =~= before + calls_for(
                        targets[i as int],
                        batches as nat,
                    ).subrange(0, b as int + 1));
                    b = b + 1;
                }
                assert(calls_for(targets[i as int], batches as nat).subrange(0, b as int)
                    =~= calls_for(targets[i as int], batches as nat));
            },
            None => {
                assert(before + calls_for(targets[i as int], batches as nat) =~= before);
            },
        }
        i = i + 1;
    }
    assert(targets.subrange(0, i as int) =~= targets);
    calls
}

/// An endpoint without a token receives no call, whatever the batches.
pub proof fn lemma_no_token_no_call(endpoint: EndpointView, batches: nat)
    requires
        endpoint.token is None,
    ensures
        calls_for(endpoint, batches).len() == 0,
{
}

/// With no endpoint registered, or with nothing to deliver, a cycle makes
/// no delivery call.
pub proof fn lemma_nothing_to_call(endpoints: Seq<EndpointView>, batches: nat)
    requires
        endpoints.len() == 0 || batches == 0,
    ensures
        planned_calls(endpoints, batches) == Seq::<DeliveryCallView>::empty(),
    decreases endpoints.len(),
{
    let each = |e: EndpointView| calls_for(e, batches);
    if endpoints.len() == 0 {
        assert(endpoints.map_values(each) =~= Seq::<Seq<DeliveryCallView>>::empty());
    } else {
        let rest = endpoints.drop_last();
        if rest.len() == 0 {
            assert(rest.map_values(each) =~= Seq::<Seq<DeliveryCallView>>::empty());
        } else {
            lemma_nothing_to_call(rest, batches);
        }
        assert(endpoints.map_values(each) =~= rest.map_values(each).push(
            calls_for(endpoints.last(), batches),
        ));
        rest.map_values(each).lemma_flatten_push(calls_for(endpoints.last(), batches));
        assert(calls_for(endpoints.last(), batches) =~= Seq::<DeliveryCallView>::empty());
        assert(planned_calls(endpoints, batches) =~= Seq::<DeliveryCallView>::empty());
    }
}

/// The label under which the bot registers its own endpoint in a channel.
pub open spec fn own_label() -> Seq<char> {
    "SipBot Webhook"@
}

/// Whether the endpoint is the bot's own: it carries the bot's label and was
/// created by the bot.
pub open spec fn is_own(endpoint: EndpointView, bot: u64) -> bool {
    endpoint.name == Some(own_label()) && endpoint.owner == Some(bot)
}

/// Finds the bot's own endpoint among those of a channel: the position of
/// the first that carries the bot's label and was created by the bot.
pub fn find_own_endpoint(channel: &Vec<Endpoint>, bot: u64) -> (found: Option<usize>)
    ensures
        match found {
            Some(at) => at < channel.len() && is_own(channel@[at as int]@, bot) && forall|j: int|
                0 <= j < at ==> !is_own((#[trigger] channel@[j])@, bot),
            None => forall|j: int| 0 <= j < channel.len() ==> !is_own((#[trigger] channel@[j])@, bot),
        },
{
    let label = String::from_str("SipBot Webhook");
    let mut i: usize = 0;
    while i < channel.len()
        invariant
            i <= channel.len(),
            label@ == own_label(),
            forall|j: int| 0 <= j < i ==> !is_own((#[trigger] channel@[j])@, bot),
        decreases channel.len() - i,
    {
        let named = match &channel[i].name {
            Some(name) => *name == label,
            None => false,
        };
        let owned = match channel[i].owner {
            Some(owner) => owner == bot,
            None => false,
        };
        if named && owned {
            return Some(i);
        }
        i = i + 1;
    }
    None
}

/// The test "this endpoint is not the one with identifier `id`".
pub open spec fn other_than(id: u64) -> spec_fn(EndpointView) -> bool {
    |e: EndpointView| e.id != id
}

/// Takes the endpoint with this identifier out of the registry; the others
/// stay, in their order.
pub fn without_endpoint(registry: &Vec<Endpoint>, id: u64) -> (kept: Vec<Endpoint>)
    ensures
        endpoint_views(kept@) == endpoint_views(registry@).filter(other_than(id)),
{
    let ghost source = endpoint_views(registry@);
    let ghost keep = other_than(id);
    let mut kept: Vec<Endpoint> = Vec::new();
    let mut i: usize = 0;
    proof {
        reveal(Seq::filter);
        assert(source.subrange(0, 0).filter(keep) =~= Seq::<EndpointView>::empty());
        assert(endpoint_views(kept@) =~= Seq::<EndpointView>::empty());
    }
    while i < registry.len()
        invariant
            i <= registry.len(),
            source == endpoint_views(registry@),
            keep == other_than(id),
            endpoint_views(kept@) == source.subrange(0, i as int).filter(keep),
        decreases registry.len() - i,
    {
        let ghost before = endpoint_views(kept@);
        proof {
            reveal(Seq::filter);
            let upto = source.subrange(0, i as int + 1);
            assert(upto.drop_last() =~= source.subrange(0, i as int));
            assert(upto.last() == registry@[i as int]@);
        }
        if registry[i].id != id {
            let copy = registry[i].clone();
            kept.push(copy);
            assert(endpoint_views(kept@) =~= before.push(copy@));
        }
        i = i + 1;
    }
    assert(source.subrange(0, i as int) =~= source);
    kept
}

} // verus!
