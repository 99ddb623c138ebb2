//! Verified construction of the metrics client: the configured namespace
//! prefix and every configured static tag are attached to the client built
//! over an already-prepared transport sink. The transport itself (socket,
//! buffering, queuing) is prepared by the startup glue and handed in opaquely.

use vstd::prelude::*;

verus! {

/// The queuing transport sink type of the metrics client library, carried
/// opaquely.
#[verifier::external_type_specification]
#[verifier::external_body]
pub struct ExQueuingMetricSink(cadence::QueuingMetricSink);

/// The metrics client type, carried opaquely.
#[verifier::external_type_specification]
#[verifier::external_body]
pub struct ExStatsdClient(cadence::StatsdClient);

/// The metrics client builder type, carried opaquely.
#[verifier::external_type_specification]
#[verifier::external_body]
pub struct ExStatsdClientBuilder(cadence::StatsdClientBuilder);

/// `p` with its trailing dots removed.
pub open spec fn drop_trailing_dots(p: Seq<char>) -> Seq<char>
    decreases p.len(),
{
    if p.len() > 0 && p.last() == '.' {
        drop_trailing_dots(p.drop_last())
    } else {
        p
    }
}

/// The prefix string the built client prepends to every metric name: empty
/// stays empty, anything else gets exactly one trailing dot.
pub open spec fn spec_formatted_prefix(p: Seq<char>) -> Seq<char> {
    if p.len() == 0 {
        Seq::empty()
    } else {
        drop_trailing_dots(p) + "."@
    }
}

/// The keyed default tags a builder has accumulated, in insertion order.
pub uninterp spec fn builder_tags(b: cadence::StatsdClientBuilder) -> Seq<(Seq<char>, Seq<char>)>;

/// The prefix string a builder carries.
pub uninterp spec fn builder_prefix(b: cadence::StatsdClientBuilder) -> Seq<char>;

/// The keyed default tags a client attaches to every emitted metric.
pub uninterp spec fn client_tags(c: cadence::StatsdClient) -> Seq<(Seq<char>, Seq<char>)>;

/// The prefix string a client prepends to every emitted metric name.
pub uninterp spec fn client_prefix(c: cadence::StatsdClient) -> Seq<char>;

/// Relies on `cadence::StatsdClient::builder`: the builder starts with no
/// tags and stores the prefix normalized to a single trailing dot.
#[verifier::external_body]
fn client_builder(prefix: &str, sink: cadence::QueuingMetricSink) -> (r:
    cadence::StatsdClientBuilder)
    ensures
        builder_tags(r) == Seq::<(Seq<char>, Seq<char>)>::empty(),
        builder_prefix(r) == spec_formatted_prefix(prefix@),
{
    cadence::StatsdClient::builder(prefix, sink)
}

/// Relies on `cadence::StatsdClientBuilder::with_tag`: appends one keyed
/// default tag and changes nothing else stated here.
#[verifier::external_body]
fn builder_with_tag(b: cadence::StatsdClientBuilder, key: &str, value: &str) -> (r:
    cadence::StatsdClientBuilder)
    ensures
        builder_tags(r) == builder_tags(b).push((key@, value@)),
        builder_prefix(r) == builder_prefix(b),
{
    b.with_tag(key, value)
}

/// Relies on `cadence::StatsdClientBuilder::build`: the client takes over the
/// builder's prefix and tags.
#[verifier::external_body]
fn builder_build(b: cadence::StatsdClientBuilder) -> (r: cadence::StatsdClient)
    ensures
        client_tags(r) == builder_tags(b),
        client_prefix(r) == builder_prefix(b),
{
    b.build()
}

/// Builds the metrics client over a prepared transport sink: the namespace
/// prefix and every static tag, in order, end up on the client, so every
/// metric emitted through it carries them.
pub fn build_metrics_client(
    prefix: &str,
    sink: cadence::QueuingMetricSink,
    tags: &Vec<(String, String)>,
) -> (c: cadence::StatsdClient)
    ensures
        client_tags(c) == tags.deep_view(),
        client_prefix(c) == spec_formatted_prefix(prefix@),
{
    let mut b = client_builder(prefix, sink);
    let mut idx: usize = 0;
    while idx < tags.len()
        invariant
            idx <= tags@.len(),
            builder_prefix(b) == spec_formatted_prefix(prefix@),
            builder_tags(b) == tags.deep_view().take(idx as int),
        decreases tags@.len() - idx,
    {
        let pair = &tags[idx];
        b = builder_with_tag(b, pair.0.as_str(), pair.1.as_str());
        proof {
            assert(tags.deep_view().take(idx + 1) =~= tags.deep_view().take(idx as int).push(
                (tags@[idx as int].0@, tags@[idx as int].1@),
            ));
        }
        idx += 1;
    }
    proof {
        assert(tags.deep_view().take(tags@.len() as int) =~= tags.deep_view());
    }
    builder_build(b)
}

} // verus!
