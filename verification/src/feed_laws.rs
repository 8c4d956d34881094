//! What holds of every subscription.

use crate::chain::{ChainType, contract_of};
use crate::json::{JsonNumber, JsonTree, parsed_json};
use crate::subscription::{
    Event, Feed, Listener, ends_listening, event_lines, event_weight, feed_name, heard_events, heard_failure,
    heard_lines, is_event, opening_failure, subscribe_message, subscription_id, total_line,
    unsubscribe_message,
};
use crate::text::decimal;
use vstd::prelude::*;

verus! {

/// The name under which a feed is known to a node.
pub open spec fn is_feed_topic(feed: Feed, topic: Seq<char>) -> bool {
    match feed {
        Feed::NewHeads => topic == "newHeads"@,
        Feed::Logs => topic == "logs"@,
        Feed::PendingTransactions => topic == "newPendingTransactions"@,
        Feed::Syncing => topic == "syncing"@,
    }
}

proof fn lemma_message_keys()
    ensures
        "jsonrpc"@ != "id"@,
        "jsonrpc"@ != "method"@,
        "jsonrpc"@ != "params"@,
        "id"@ != "method"@,
        "id"@ != "params"@,
        "method"@ != "params"@,
{
    reveal_strlit("jsonrpc");
    reveal_strlit("id");
    reveal_strlit("method");
    reveal_strlit("params");
    assert("jsonrpc"@.len() == 7);
    assert("id"@.len() == 2);
    assert("method"@.len() == 6);
    assert("params"@.len() == 6);
    assert("method"@[0] != "params"@[0]);
}

/// The message that subscribes to a feed has four members, and asks for the topic
/// of the feed; of the logs, it asks for those of the sample contract of the chain
/// that the client is for.
pub proof fn law_subscriptions_name_their_topic(feed: Feed, chain: ChainType, key: Seq<char>)
    ensures
        ({
            let message = subscribe_message(feed, chain);
            let params = message.at("params"@);
            &&& message.get("jsonrpc"@) == Some(JsonTree::Text("2.0"@))
            &&& message.get("id"@) == Some(JsonTree::Number(JsonNumber::PosInt(1)))
            &&& message.get("method"@) == Some(JsonTree::Text("eth_subscribe"@))
            &&& message.get("params"@) is Some
            &&& message.get(key) is Some ==> key == "jsonrpc"@ || key == "id"@ || key == "method"@
                || key == "params"@
            &&& params is Array
            &&& params->Array_0[0] is Text
            &&& is_feed_topic(feed, params->Array_0[0]->Text_0)
            &&& !(feed is Logs) ==> params->Array_0.len() == 1
            &&& feed is Logs ==> {
                &&& params->Array_0.len() == 2
                &&& params->Array_0[1].get("address"@) == Some(JsonTree::Text(contract_of(chain)))
                &&& params->Array_0[1].get(key) is Some ==> key == "address"@
                &&& chain is BSC ==> params->Array_0[1].get("address"@) == Some(
                    JsonTree::Text("0x55d398326f99059fF775485246999027E3197955"@),
                )
                &&& chain is Ethereum ==> params->Array_0[1].get("address"@) == Some(
                    JsonTree::Text("0xA0b86991c6218b36c1d19D4a2e9Eb0cE3606eB48"@),
                )
                &&& chain is Arbitrum ==> params->Array_0[1].get("address"@) == Some(
                    JsonTree::Text("0x912CE59144191C1204E64559FE8253a0e49E6548"@),
                )
                &&& chain is Optimism || chain is Base || chain is Unknown
                    ==> params->Array_0[1].get("address"@) == Some(
                    JsonTree::Text("0x4200000000000000000000000000000000000006"@),
                )
            }
        }),
{
    lemma_message_keys();
}

/// The message that ends a subscription has four members, another number than the
/// one that began it, and the identifier of the subscription as its one parameter.
pub proof fn law_unsubscriptions_name_the_identifier(id: Seq<char>, key: Seq<char>)
    ensures
        ({
            let message = unsubscribe_message(id);
            &&& message.get("jsonrpc"@) == Some(JsonTree::Text("2.0"@))
            &&& message.get("id"@) == Some(JsonTree::Number(JsonNumber::PosInt(2)))
            &&& message.get("method"@) == Some(JsonTree::Text("eth_unsubscribe"@))
            &&& message.get("params"@) is Some
            &&& message.at("params"@) is Array
            &&& message.at("params"@)->Array_0 == seq![JsonTree::Text(id)]
            &&& message.get(key) is Some ==> key == "jsonrpc"@ || key == "id"@ || key == "method"@
                || key == "params"@
        }),
{
    lemma_message_keys();
    assert(unsubscribe_message(id).at("params"@)->Array_0 =~= seq![JsonTree::Text(id)]);
}

/// The check of a feed is named after its topic.
pub proof fn law_feeds_are_named_after_their_topic(feed: Feed, topic: Seq<char>)
    requires
        is_feed_topic(feed, topic),
    ensures
        feed_name(feed) == "eth_subscribe ("@ + topic + ")"@,
{
    reveal_strlit("eth_subscribe (");
    reveal_strlit(")");
    reveal_strlit("newHeads");
    reveal_strlit("logs");
    reveal_strlit("newPendingTransactions");
    reveal_strlit("syncing");
    reveal_strlit("eth_subscribe (newHeads)");
    reveal_strlit("eth_subscribe (logs)");
    reveal_strlit("eth_subscribe (newPendingTransactions)");
    reveal_strlit("eth_subscribe (syncing)");
    assert(feed_name(feed) =~= "eth_subscribe ("@ + topic + ")"@);
}

/// The identifier of a subscription is the string that its response has as result.
pub proof fn law_the_result_is_the_identifier(t: JsonTree, id: Seq<char>)
    ensures
        subscription_id(t) == Some(id) <==> t.get("result"@) == Some(JsonTree::Text(id)),
        subscription_id(t) is None <==> !(t.at("result"@) is Text),
{
}

/// A subscription fails without a response, with a response that is no JSON, and
/// with one that gives no identifier, and in no other way.
pub proof fn law_how_subscriptions_fail(text: Seq<char>)
    ensures
        opening_failure(None) == Some(seq!["No subscription response"@]),
        parsed_json(text) matches Err(message) ==> opening_failure(Some(text)) == Some(
            seq![message],
        ),
        parsed_json(text) matches Ok(t) ==> {
            &&& t.at("result"@) is Text ==> opening_failure(Some(text)) is None
            &&& !(t.at("result"@) is Text) ==> opening_failure(Some(text)) == Some(
                seq!["No subscription ID"@],
            )
        },
{
}

/// A message counts as one event if its method is "eth_subscription", and as none
/// otherwise, whatever the feed and whatever else it holds.
pub proof fn law_events_are_known_by_their_method(t: JsonTree)
    ensures
        is_event(t) <==> t.get("method"@) == Some(JsonTree::Text("eth_subscription"@)),
        event_weight(t) == 1 <==> t.get("method"@) == Some(JsonTree::Text("eth_subscription"@)),
        event_weight(t) == 0 <==> t.get("method"@) != Some(JsonTree::Text("eth_subscription"@)),
{
}

/// Of an event, the number of a new head and the hash of a pending transaction are
/// shown where they are strings; of logs and of syncing, that there was one.
pub proof fn law_what_is_shown_of_events(t: JsonTree)
    ensures
        ({
            let result = t.at("params"@).at("result"@);
            &&& result.get("number"@) matches Some(JsonTree::Text(number)) ==> event_lines(
                Feed::NewHeads,
                t,
            ) == seq!["  Received new head: "@ + number]
            &&& !(result.at("number"@) is Text) ==> event_lines(Feed::NewHeads, t).len() == 0
            &&& result matches JsonTree::Text(hash) ==> event_lines(Feed::PendingTransactions, t)
                == seq!["  Received pending tx: "@ + hash]
            &&& !(result is Text) ==> event_lines(Feed::PendingTransactions, t).len() == 0
            &&& event_lines(Feed::Logs, t) == seq!["  Received log event"@]
            &&& event_lines(Feed::Syncing, t) == seq!["  Received syncing status update"@]
        }),
{
}

/// Only a text message that tells of an event adds to the count, and the count
/// alone changes.
pub proof fn law_only_events_add_to_the_count(listener: Listener, event: Event)
    requires
        0 <= listener.events < i32::MAX,
    ensures
        ({
            let then = listener.after(heard_events(event));
            let told = event matches Event::Text(s) && parsed_json(s@) is Ok && parsed_json(
                s@,
            )->Ok_0.get("method"@) == Some(JsonTree::Text("eth_subscription"@));
            &&& told ==> then.events == listener.events + 1
            &&& !told ==> then.events == listener.events
            &&& then.feed == listener.feed
            &&& then.id == listener.id
        }),
{
}

/// Listening fails by a broken connection, with its failure, and by a text message
/// that is no JSON, and by nothing else; such a message prints nothing.
pub proof fn law_how_listening_fails(feed: Feed, event: Event)
    ensures
        event matches Event::Failed(f) ==> heard_failure(event) == Some(f@) && heard_lines(
            feed,
            event,
        ).len() == 0,
        event matches Event::Text(s) ==> match parsed_json(s@) {
            Err(message) => heard_failure(event) == Some(seq![message]) && heard_lines(
                feed,
                event,
            ).len() == 0,
            Ok(t) => {
                &&& heard_failure(event) is None
                &&& t.get("method"@) == Some(JsonTree::Text("eth_subscription"@)) ==> heard_lines(
                    feed,
                    event,
                ) == event_lines(feed, t)
                &&& t.get("method"@) != Some(JsonTree::Text("eth_subscription"@)) ==> heard_lines(
                    feed,
                    event,
                ).len() == 0
            },
        },
        event is Other || event is Closed ==> heard_failure(event) is None && heard_lines(
            feed,
            event,
        ).len() == 0,
        event is Elapsed ==> heard_failure(event) is None && heard_lines(feed, event)
            == seq!["  Listening timeout reached"@],
{
}

/// Listening ends well when the connection is closed and when the time is over, and
/// by nothing that also fails it; messages of any kind let it go on.
pub proof fn law_when_listening_ends(event: Event)
    ensures
        ends_listening(event) <==> event is Closed || event is Elapsed,
        ends_listening(event) ==> heard_failure(event) is None,
        event is Text || event is Other ==> !ends_listening(event),
{
}

/// The last line gives the number of events, under what they are events of.
pub proof fn law_the_total_is_shown(feed: Feed, events: nat)
    ensures
        feed is NewHeads ==> total_line(feed, events as int) == "  Total events received: "@
            + decimal(events),
        feed is Logs ==> total_line(feed, events as int) == "  Total log events received: "@
            + decimal(events),
        feed is PendingTransactions ==> total_line(feed, events as int)
            == "  Total pending transactions received: "@ + decimal(events),
        feed is Syncing ==> total_line(feed, events as int) == "  Total syncing events received: "@
            + decimal(events),
{
}

} // verus!
