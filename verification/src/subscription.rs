//! WebSocket subscriptions: what is asked for, and what is heard.

use crate::chain::{ChainType, contract_of};
use crate::client::RpcClient;
use crate::failure::{Failure, plain};
use crate::json::{Json, JsonTree, compact_text, list, object, parsed_json, text, uint};
use crate::text::{join2, lines_of, no_lines, one_line, signed_decimal, signed_decimal_text, str_eq};
use vstd::prelude::*;

verus! {

/// What is subscribed to.
#[derive(Debug, Clone, Copy, PartialEq, Eq, Structural)]
pub enum Feed {
    NewHeads,
    Logs,
    PendingTransactions,
    Syncing,
}

/// The name of the check of a feed.
pub open spec fn feed_name(feed: Feed) -> Seq<char> {
    match feed {
        Feed::NewHeads => "eth_subscribe (newHeads)"@,
        Feed::Logs => "eth_subscribe (logs)"@,
        Feed::PendingTransactions => "eth_subscribe (newPendingTransactions)"@,
        Feed::Syncing => "eth_subscribe (syncing)"@,
    }
}

/// The parameters that subscribe to a feed.
pub open spec fn feed_params(feed: Feed, chain: ChainType) -> JsonTree {
    match feed {
        Feed::NewHeads => list().item(text("newHeads"@)),
        Feed::Logs => list().item(text("logs"@)).item(
            object().with("address"@, text(contract_of(chain))),
        ),
        Feed::PendingTransactions => list().item(text("newPendingTransactions"@)),
        Feed::Syncing => list().item(text("syncing"@)),
    }
}

/// A request message.
pub open spec fn message(id: u64, method: Seq<char>, params: JsonTree) -> JsonTree {
    object().with("jsonrpc"@, text("2.0"@)).with("id"@, uint(id)).with("method"@, text(method)).with(
        "params"@,
        params,
    )
}

/// The message that subscribes to a feed.
pub open spec fn subscribe_message(feed: Feed, chain: ChainType) -> JsonTree {
    message(1, "eth_subscribe"@, feed_params(feed, chain))
}

/// The message that ends a subscription.
pub open spec fn unsubscribe_message(id: Seq<char>) -> JsonTree {
    message(2, "eth_unsubscribe"@, list().item(text(id)))
}

/// How the check of a feed begins.
pub enum Opening {
    /// It has passed without a connection, and this line is printed.
    Skip(String),
    /// This message is sent over a new connection.
    Send(String),
}

fn request(id: u64, method: &str, params: Json) -> (r: Json)
    ensures
        r@ == message(id, method@, params@),
{
    Json::object().with("jsonrpc", Json::string("2.0")).with("id", Json::number(id)).with(
        "method",
        Json::string(method),
    ).with("params", params)
}

impl Feed {
    /// The name of the check of the feed.
    pub fn name(&self) -> (r: &'static str)
        ensures
            r@ == feed_name(*self),
    {
        match self {
            Feed::NewHeads => "eth_subscribe (newHeads)",
            Feed::Logs => "eth_subscribe (logs)",
            Feed::PendingTransactions => "eth_subscribe (newPendingTransactions)",
            Feed::Syncing => "eth_subscribe (syncing)",
        }
    }

    /// The parameters that subscribe to the feed.
    fn params(&self, chain: &ChainType) -> (r: Json)
        ensures
            r@ == feed_params(*self, *chain),
    {
        match self {
            Feed::NewHeads => Json::list().item(Json::string("newHeads")),
            Feed::Logs => Json::list().item(Json::string("logs")).item(
                Json::object().with("address", Json::string(chain.sample_contract())),
            ),
            Feed::PendingTransactions => Json::list().item(Json::string("newPendingTransactions")),
            Feed::Syncing => Json::list().item(Json::string("syncing")),
        }
    }

    /// Begins the check of the feed.
    pub fn begin(&self, client: &RpcClient) -> (r: Opening)
        ensures
            r is Send <==> client.is_websocket,
            r matches Opening::Send(m) ==> m@ == compact_text(
                subscribe_message(*self, client.chain_type),
            ),
            r matches Opening::Skip(line) ==> line@
                == "  Skipped (requires WebSocket connection)"@,
    {
        if client.is_websocket {
            Opening::Send(request(1, "eth_subscribe", self.params(&client.chain_type)).text())
        } else {
            Opening::Skip("  Skipped (requires WebSocket connection)".to_string())
        }
    }
}

/// The identifier that a response to a subscription gives.
pub open spec fn subscription_id(t: JsonTree) -> Option<Seq<char>> {
    t.at("result"@).as_text()
}

/// How a subscription fails, given what came back for it.
pub open spec fn opening_failure(reply: Option<Seq<char>>) -> Option<Seq<Seq<char>>> {
    match reply {
        None => Some(plain("No subscription response"@)),
        Some(s) => match parsed_json(s) {
            Err(m) => Some(plain(m)),
            Ok(t) => if subscription_id(t) is None {
                Some(plain("No subscription ID"@))
            } else {
                None
            },
        },
    }
}

/// A message that tells of an event.
pub open spec fn is_event(t: JsonTree) -> bool {
    t.at("method"@).as_text() == Some("eth_subscription"@)
}

/// Whether a message tells of an event.
fn tells_of_event(t: &Json) -> (r: bool)
    ensures
        r == is_event(t@),
{
    match t.text_at("method") {
        Some(method) => str_eq(method, "eth_subscription"),
        None => false,
    }
}

/// What is printed of an event.
pub open spec fn event_lines(feed: Feed, t: JsonTree) -> Seq<Seq<char>> {
    let result = t.at("params"@).at("result"@);
    match feed {
        Feed::NewHeads => match result.at("number"@).as_text() {
            Some(number) => seq!["  Received new head: "@ + number],
            None => seq![],
        },
        Feed::Logs => seq!["  Received log event"@],
        Feed::PendingTransactions => match result.as_text() {
            Some(hash) => seq!["  Received pending tx: "@ + hash],
            None => seq![],
        },
        Feed::Syncing => seq!["  Received syncing status update"@],
    }
}

/// What is printed at the end.
pub open spec fn total_line(feed: Feed, events: int) -> Seq<char> {
    let label = match feed {
        Feed::NewHeads => "  Total events received: "@,
        Feed::Logs => "  Total log events received: "@,
        Feed::PendingTransactions => "  Total pending transactions received: "@,
        Feed::Syncing => "  Total syncing events received: "@,
    };
    label + signed_decimal(events)
}

/// What happens on the connection.
pub enum Event {
    /// A text message came in.
    Text(String),
    /// A message of another kind came in.
    Other,
    /// The connection failed.
    Failed(Failure),
    /// The connection was closed.
    Closed,
    /// The time for listening is over.
    Elapsed,
}

/// How listening goes on.
pub enum Heard {
    Listen,
    Stop,
    Fail(Failure),
}

/// A subscription in progress.
pub struct Listener {
    pub feed: Feed,
    pub id: String,
    /// How many events were heard.
    pub events: i32,
}

/// How many more events a message counts for.
pub open spec fn event_weight(t: JsonTree) -> int {
    if is_event(t) {
        1
    } else {
        0
    }
}

/// How many more events what happened counts for.
pub open spec fn heard_events(event: Event) -> int {
    match event {
        Event::Text(s) => match parsed_json(s@) {
            Ok(t) => event_weight(t),
            Err(_) => 0,
        },
        _ => 0,
    }
}

/// What is printed of what happened.
pub open spec fn heard_lines(feed: Feed, event: Event) -> Seq<Seq<char>> {
    match event {
        Event::Text(s) => match parsed_json(s@) {
            Ok(t) => if is_event(t) {
                event_lines(feed, t)
            } else {
                seq![]
            },
            Err(_) => seq![],
        },
        Event::Elapsed => seq!["  Listening timeout reached"@],
        _ => seq![],
    }
}

/// How the check fails by what happened.
pub open spec fn heard_failure(event: Event) -> Option<Seq<Seq<char>>> {
    match event {
        Event::Text(s) => match parsed_json(s@) {
            Ok(_) => None,
            Err(m) => Some(plain(m)),
        },
        Event::Failed(f) => Some(f@),
        _ => None,
    }
}

/// Listening ends well by what happened.
pub open spec fn ends_listening(event: Event) -> bool {
    event is Closed || event is Elapsed
}

impl Listener {
    /// The number of events is a count.
    pub open spec fn wf(self) -> bool {
        self.events >= 0
    }

    /// The listener after so many more events.
    pub open spec fn after(self, more: int) -> Listener {
        Listener { events: (self.events + more) as i32, ..self }
    }

    /// A subscription to a feed, from the response to it.
    pub fn from_response(feed: Feed, response: &Json) -> (r: Result<Listener, Failure>)
        ensures
            r is Ok <==> subscription_id(response@) is Some,
            r matches Ok(l) ==> {
                &&& l.wf()
                &&& l.feed == feed
                &&& subscription_id(response@) == Some(l.id@)
                &&& l.events == 0
            },
            r matches Err(f) ==> f@ == plain("No subscription ID"@),
    {
        match response.text_at("result") {
            Some(id) => Ok(Listener { feed, id: id.to_string(), events: 0 }),
            None => Err(Failure::new("No subscription ID".to_string())),
        }
    }

    /// A subscription to a feed, from what came back for it, and what is printed
    /// of it.
    pub fn open(feed: Feed, reply: Option<&str>) -> (r: Result<(Listener, Vec<String>), Failure>)
        ensures
            ({
                let got = match reply {
                    Some(s) => Some(s@),
                    None => None,
                };
                &&& r is Err <==> opening_failure(got) is Some
                &&& r matches Err(f) ==> opening_failure(got) == Some(f@)
                &&& r matches Ok((l, lines)) ==> {
                    &&& l.wf()
                    &&& l.feed == feed
                    &&& subscription_id(parsed_json(got->0)->Ok_0) == Some(l.id@)
                    &&& l.events == 0
                    &&& lines_of(lines@) == seq!["  Subscription ID: "@ + l.id@]
                }
            }),
    {
        match reply {
            None => Err(Failure::new("No subscription response".to_string())),
            Some(s) => match Json::parse(s) {
                Err(m) => Err(Failure::new(m)),
                Ok(response) => match Listener::from_response(feed, &response) {
                    Err(f) => Err(f),
                    Ok(listener) => {
                        let line = join2("  Subscription ID: ", listener.id.as_str());
                        Ok((listener, one_line(line)))
                    },
                },
            },
        }
    }

    /// Takes in a message: counts it if it tells of an event, and returns what is
    /// printed of it.
    pub fn on_message(&mut self, t: &Json) -> (lines: Vec<String>)
        requires
            old(self).wf(),
            is_event(t@) ==> old(self).events < i32::MAX,
        ensures
            final(self).wf(),
            *final(self) == old(self).after(event_weight(t@)),
            lines_of(lines@) == if is_event(t@) {
                event_lines(old(self).feed, t@)
            } else {
                seq![]
            },
    {
        if !tells_of_event(t) {
            return no_lines();
        }
        self.events = self.events + 1;
        let result = match t.get("params") {
            Some(params) => params.get("result"),
            None => None,
        };
        match self.feed {
            Feed::NewHeads => {
                let number = match result {
                    Some(head) => head.text_at("number"),
                    None => None,
                };
                match number {
                    Some(number) => one_line(join2("  Received new head: ", number)),
                    None => no_lines(),
                }
            },
            Feed::Logs => one_line("  Received log event".to_string()),
            Feed::PendingTransactions => {
                let hash = match result {
                    Some(tx) => tx.as_str(),
                    None => None,
                };
                match hash {
                    Some(hash) => one_line(join2("  Received pending tx: ", hash)),
                    None => no_lines(),
                }
            },
            Feed::Syncing => one_line("  Received syncing status update".to_string()),
        }
    }

    /// Takes in what happened: counts an event, and returns what is printed and
    /// how listening goes on. An event beyond the last that can be counted is not
    /// taken in.
    pub fn on_event(&mut self, event: Event) -> (r: Option<(Vec<String>, Heard)>)
        requires
            old(self).wf(),
        ensures
            final(self).wf(),
            r is None <==> heard_events(event) == 1 && old(self).events == i32::MAX,
            r is None ==> *final(self) == *old(self),
            r matches Some((lines, heard)) ==> {
                &&& *final(self) == old(self).after(heard_events(event))
                &&& lines_of(lines@) == heard_lines(old(self).feed, event)
                &&& heard is Stop <==> ends_listening(event)
                &&& heard is Stop <==> event is Closed || event is Elapsed
                &&& heard is Fail <==> heard_failure(event) is Some
                &&& heard matches Heard::Fail(f) ==> heard_failure(event) == Some(f@)
            },
    {
        match event {
            Event::Text(s) => match Json::parse(s.as_str()) {
                Ok(t) => {
                    if self.events == i32::MAX && tells_of_event(&t) {
                        return None;
                    }
                    Some((self.on_message(&t), Heard::Listen))
                },
                Err(m) => Some((no_lines(), Heard::Fail(Failure::new(m)))),
            },
            Event::Other => Some((no_lines(), Heard::Listen)),
            Event::Failed(f) => Some((no_lines(), Heard::Fail(f))),
            Event::Closed => Some((no_lines(), Heard::Stop)),
            Event::Elapsed => Some(
                (one_line("  Listening timeout reached".to_string()), Heard::Stop),
            ),
        }
    }

    /// The message that ends the subscription.
    pub fn closing(&self) -> (r: String)
        ensures
            r@ == compact_text(unsubscribe_message(self.id@)),
    {
        request(2, "eth_unsubscribe", Json::list().item(Json::string(self.id.as_str()))).text()
    }

    /// What is printed at the end.
    pub fn total(&self) -> (r: String)
        ensures
            r@ == total_line(self.feed, self.events as int),
    {
        let label = match self.feed {
            Feed::NewHeads => "  Total events received: ",
            Feed::Logs => "  Total log events received: ",
            Feed::PendingTransactions => "  Total pending transactions received: ",
            Feed::Syncing => "  Total syncing events received: ",
        };
        join2(label, signed_decimal_text(self.events as i64).as_str())
    }
}

/// A listener after a row of messages.
pub open spec fn after_messages(listener: Listener, row: Seq<JsonTree>) -> Listener
    decreases row.len(),
{
    if row.len() == 0 {
        listener
    } else {
        after_messages(listener, row.drop_last()).after(event_weight(row.last()))
    }
}

/// The number at the end is the number of messages that told of an event.
pub proof fn law_events_are_counted(listener: Listener, row: Seq<JsonTree>)
    requires
        listener.events == 0,
        row.len() <= i32::MAX,
    ensures
        after_messages(listener, row).events == row.filter(|t: JsonTree| is_event(t)).len(),
        after_messages(listener, row).feed == listener.feed,
        after_messages(listener, row).id == listener.id,
    decreases row.len(),
{
    reveal(Seq::filter);
    if row.len() > 0 {
        law_events_are_counted(listener, row.drop_last());
        lemma_filter_len(row.drop_last());
    }
}

proof fn lemma_filter_len(row: Seq<JsonTree>)
    ensures
        row.filter(|t: JsonTree| is_event(t)).len() <= row.len(),
    decreases row.len(),
{
    reveal(Seq::filter);
    if row.len() > 0 {
        lemma_filter_len(row.drop_last());
    }
}

/// What ends a subscription names the identifier that the subscription was given.
pub proof fn law_unsubscribe_names_the_subscription(id: Seq<char>)
    ensures
        unsubscribe_message(id).at("params"@).as_array() == Some(seq![text(id)]),
        unsubscribe_message(id).at("method"@) == text("eth_unsubscribe"@),
{
    reveal_strlit("jsonrpc");
    reveal_strlit("id");
    reveal_strlit("method");
    reveal_strlit("params");
    assert("params"@[0] == 'p');
    assert("method"@[0] == 'm');
}

} // verus!
