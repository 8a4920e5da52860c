//! One client session of the subscription server: the topics the client has
//! subscribed to, what each of its commands comes to, and which broadcasts
//! it is sent.
//!
//! The program around the library owns the client's socket and its receiver
//! on the broadcast bus. It hands each input to the session and does what
//! the session answers.

use vstd::prelude::*;
use crate::agreement::candles_carry;
use crate::command::{command_of_text, parse_command};
use crate::config::AppConfig;
use crate::connector::{launch_of, spawn_connector, Connector, ConnectorView, LaunchError};
use crate::engine::{Engine, EngineView};
use crate::json::{json_of_text, parse, Json, JsonView};
use crate::models::{
    AggTrade, Candle, Command, CommandAction, CommandView, Liquidation, MarketData,
    MarketDataView, MarketType, StreamConfigView, Trade,
};
use crate::rest::{all_rows, history_url, klines_match, parse_kline_array, HistoryError};
use crate::state::SymbolStateView;
use crate::text::{topic_id, unique_id};
use crate::topics::TopicSet;

verus! {

/// What to do with a signal from the broadcast bus.
#[derive(Debug, Copy, PartialEq, Eq, Structural)]
pub enum Delivery {
    /// Send the pre-serialized payload to the client as it is.
    Forward,
    /// Send nothing and go on.
    Skip,
    /// End the session.
    End,
}

impl Clone for Delivery {
    fn clone(&self) -> (r: Self)
        ensures
            r == *self,
    {
        *self
    }
}

/// What the client's socket yields.
#[derive(Debug, Copy, PartialEq, Eq, Structural)]
pub enum ClientFrame {
    /// A text frame: it may hold a command.
    Text,
    /// Anything else: a frame of another kind, a close, an error, or the
    /// end of the stream.
    Other,
}

impl Clone for ClientFrame {
    fn clone(&self) -> (r: Self)
        ensures
            r == *self,
    {
        *self
    }
}

/// What has to be fetched for a history request.
#[derive(Debug, PartialEq, Eq)]
pub struct HistoryRequest {
    /// The topic the candles are kept under and carry.
    pub unique_id: String,
    /// The raw symbol to ask the venue for.
    pub symbol: String,
    pub market_type: MarketType,
    pub interval: String,
    /// Most candles to ask for.
    pub limit: usize,
}

/// What a `HistoryRequest` holds.
pub ghost struct HistoryRequestView {
    pub unique_id: Seq<char>,
    pub symbol: Seq<char>,
    pub market_type: MarketType,
    pub interval: Seq<char>,
    pub limit: usize,
}

impl View for HistoryRequest {
    type V = HistoryRequestView;

    open spec fn view(&self) -> HistoryRequestView {
        HistoryRequestView {
            unique_id: self.unique_id@,
            symbol: self.symbol@,
            market_type: self.market_type,
            interval: self.interval@,
            limit: self.limit,
        }
    }
}

impl HistoryRequest {
    /// The URL to fetch the candles from.
    pub fn url(&self) -> (url: Result<String, HistoryError>)
        ensures
            match url {
                Ok(u) => crate::rest::history_endpoint(self.market_type) matches Some(endpoint)
                    && u@ == crate::rest::history_query(
                    endpoint,
                    self.symbol@,
                    self.interval@,
                    self.limit as nat,
                ),
                Err(error) => error == HistoryError::UnsupportedMarket
                    && crate::rest::history_endpoint(self.market_type).is_none(),
            },
    {
        history_url(self.symbol.as_str(), self.market_type, self.interval.as_str(), self.limit)
    }
}

/// The answer to a client's text frame.
#[derive(Debug)]
pub enum Reply {
    /// The text is no command: it is passed over.
    Ignored,
    /// The topic is subscribed. `launch` is there exactly when this was the
    /// first request for the topic: the connector to run, or the reason
    /// there is none. `frames` are the snapshot burst, to send in order.
    Subscribed { launch: Option<Result<Connector, LaunchError>>, frames: Vec<MarketData> },
    /// The topic is no longer subscribed.
    Unsubscribed,
    /// Candles have to be fetched; `complete_history` takes the venue's
    /// answer.
    FetchHistory(HistoryRequest),
}

/// What the frames hold.
pub open spec fn frame_views(frames: Seq<MarketData>) -> Seq<MarketDataView> {
    Seq::new(frames.len(), |i: int| frames[i]@)
}

pub open spec fn trade_frames(trades: Seq<Trade>) -> Seq<MarketDataView> {
    Seq::new(trades.len(), |i: int| MarketDataView::Trade(trades[i]))
}

pub open spec fn agg_trade_frames(trades: Seq<AggTrade>) -> Seq<MarketDataView> {
    Seq::new(trades.len(), |i: int| MarketDataView::AggTrade(trades[i]))
}

pub open spec fn candle_frames(candles: Seq<Candle>) -> Seq<MarketDataView> {
    Seq::new(candles.len(), |i: int| MarketDataView::Candle(candles[i]))
}

pub open spec fn liquidation_frames(liquidations: Seq<Liquidation>) -> Seq<MarketDataView> {
    Seq::new(liquidations.len(), |i: int| MarketDataView::Liquidation(liquidations[i]))
}

/// One frame where there is a value, none where there is not.
pub open spec fn slot_frame(frame: Option<MarketDataView>) -> Seq<MarketDataView> {
    match frame {
        Some(f) => seq![f],
        None => Seq::empty(),
    }
}

/// The history envelope of a snapshot burst: one frame that holds the
/// candles, and none where there are no candles.
pub open spec fn history_frames(candles: Seq<Candle>) -> Seq<MarketDataView> {
    if candles.len() > 0 {
        seq![MarketDataView::HistoricalCandles(candles)]
    } else {
        Seq::empty()
    }
}

/// The snapshot burst of a topic: the order book; the trades, the
/// aggregated trades and the candles, oldest first; the ticker, the best bid
/// and ask, the mark price, the funding rate and the open interest; the
/// liquidations, oldest first; and the history up to `now`, in one envelope.
pub open spec fn snapshot_frames(state: SymbolStateView, now: u64, limit: nat) -> Seq<
    MarketDataView,
> {
    slot_frame(
        match state.order_book {
            Some(b) => Some(MarketDataView::OrderBook(b)),
            None => None,
        },
    ) + trade_frames(state.trades) + agg_trade_frames(state.agg_trades) + candle_frames(
        state.all_candles(),
    ) + slot_frame(
        match state.ticker {
            Some(t) => Some(MarketDataView::Ticker(t)),
            None => None,
        },
    ) + slot_frame(
        match state.book_ticker {
            Some(t) => Some(MarketDataView::BookTicker(t)),
            None => None,
        },
    ) + slot_frame(
        match state.mark_price {
            Some(p) => Some(MarketDataView::MarkPrice(p)),
            None => None,
        },
    ) + slot_frame(
        match state.funding_rate {
            Some(r) => Some(MarketDataView::FundingRate(r)),
            None => None,
        },
    ) + slot_frame(
        match state.open_interest {
            Some(o) => Some(MarketDataView::OpenInterest(o)),
            None => None,
        },
    ) + liquidation_frames(state.liquidations) + history_frames(state.history(now, limit))
}

fn push_slot(frames: &mut Vec<MarketData>, frame: Option<MarketData>)
    ensures
        frame_views(final(frames)@) == frame_views(old(frames)@) + slot_frame(
            match frame {
                Some(f) => Some(f@),
                None => None,
            },
        ),
{
    let ghost before = frame_views(frames@);
    match frame {
        Some(f) => {
            let ghost view = f@;
            frames.push(f);
            assert(frame_views(frames@) =~= before + seq![view]);
        },
        None => {
            assert(frame_views(frames@) =~= before + Seq::<MarketDataView>::empty());
        },
    }
}

fn push_trades(frames: &mut Vec<MarketData>, trades: &Vec<Trade>)
    ensures
        frame_views(final(frames)@) == frame_views(old(frames)@) + trade_frames(trades@),
{
    let ghost before = frame_views(frames@);
    let ghost all = trade_frames(trades@);
    let mut i: usize = 0;
    assert(frame_views(frames@) =~= before + all.subrange(0, 0));
    while i < trades.len()
        invariant
            i <= trades@.len(),
            all == trade_frames(trades@),
            frame_views(frames@) == before + all.subrange(0, i as int),
        decreases trades@.len() - i,
    {
        let ghost grown = frame_views(frames@);
        frames.push(MarketData::Trade(trades[i].clone()));
        proof {
            assert(frame_views(frames@) =~= grown.push(all[i as int]));
            assert(all.subrange(0, i + 1) =~= all.subrange(0, i as int).push(all[i as int]));
            assert(frame_views(frames@) =~= before + all.subrange(0, i + 1));
        }
        i = i + 1;
    }
    assert(all.subrange(0, i as int) == all);
}

fn push_agg_trades(frames: &mut Vec<MarketData>, trades: &Vec<AggTrade>)
    ensures
        frame_views(final(frames)@) == frame_views(old(frames)@) + agg_trade_frames(trades@),
{
    let ghost before = frame_views(frames@);
    let ghost all = agg_trade_frames(trades@);
    let mut i: usize = 0;
    assert(frame_views(frames@) =~= before + all.subrange(0, 0));
    while i < trades.len()
        invariant
            i <= trades@.len(),
            all == agg_trade_frames(trades@),
            frame_views(frames@) == before + all.subrange(0, i as int),
        decreases trades@.len() - i,
    {
        let ghost grown = frame_views(frames@);
        frames.push(MarketData::AggTrade(trades[i].clone()));
        proof {
            assert(frame_views(frames@) =~= grown.push(all[i as int]));
            assert(all.subrange(0, i + 1) =~= all.subrange(0, i as int).push(all[i as int]));
            assert(frame_views(frames@) =~= before + all.subrange(0, i + 1));
        }
        i = i + 1;
    }
    assert(all.subrange(0, i as int) == all);
}

fn push_candles(frames: &mut Vec<MarketData>, candles: &Vec<Candle>)
    ensures
        frame_views(final(frames)@) == frame_views(old(frames)@) + candle_frames(candles@),
{
    let ghost before = frame_views(frames@);
    let ghost all = candle_frames(candles@);
    let mut i: usize = 0;
    assert(frame_views(frames@) =~= before + all.subrange(0, 0));
    while i < candles.len()
        invariant
            i <= candles@.len(),
            all == candle_frames(candles@),
            frame_views(frames@) == before + all.subrange(0, i as int),
        decreases candles@.len() - i,
    {
        let ghost grown = frame_views(frames@);
        frames.push(MarketData::Candle(candles[i].clone()));
        proof {
            assert(frame_views(frames@) =~= grown.push(all[i as int]));
            assert(all.subrange(0, i + 1) =~= all.subrange(0, i as int).push(all[i as int]));
            assert(frame_views(frames@) =~= before + all.subrange(0, i + 1));
        }
        i = i + 1;
    }
    assert(all.subrange(0, i as int) == all);
}

fn push_liquidations(frames: &mut Vec<MarketData>, liquidations: &Vec<Liquidation>)
    ensures
        frame_views(final(frames)@) == frame_views(old(frames)@) + liquidation_frames(
            liquidations@,
        ),
{
    let ghost before = frame_views(frames@);
    let ghost all = liquidation_frames(liquidations@);
    let mut i: usize = 0;
    assert(frame_views(frames@) =~= before + all.subrange(0, 0));
    while i < liquidations.len()
        invariant
            i <= liquidations@.len(),
            all == liquidation_frames(liquidations@),
            frame_views(frames@) == before + all.subrange(0, i as int),
        decreases liquidations@.len() - i,
    {
        let ghost grown = frame_views(frames@);
        frames.push(MarketData::Liquidation(liquidations[i].clone()));
        proof {
            assert(frame_views(frames@) =~= grown.push(all[i as int]));
            assert(all.subrange(0, i + 1) =~= all.subrange(0, i as int).push(all[i as int]));
            assert(frame_views(frames@) =~= before + all.subrange(0, i + 1));
        }
        i = i + 1;
    }
    assert(all.subrange(0, i as int) == all);
}

fn push_history(frames: &mut Vec<MarketData>, candles: Vec<Candle>)
    ensures
        frame_views(final(frames)@) == frame_views(old(frames)@) + history_frames(candles@),
{
    let ghost before = frame_views(frames@);
    if candles.len() > 0 {
        frames.push(MarketData::HistoricalCandles(candles));
        assert(frame_views(frames@) =~= before + history_frames(candles@));
    } else {
        assert(frame_views(frames@) =~= before + history_frames(candles@));
    }
}

/// The snapshot burst of `topic`: what the registry holds for it now, as
/// frames to send in order, and its history up to `now`, bounded by `limit`.
pub fn snapshot(engine: &Engine, topic: &str, now: u64, limit: usize) -> (frames: Vec<MarketData>)
    ensures
        frame_views(frames@) == snapshot_frames(engine@.state_of(topic@), now, limit as nat),
{
    let mut frames: Vec<MarketData> = Vec::new();
    assert(frame_views(frames@) =~= Seq::<MarketDataView>::empty());
    let book = match engine.get_order_book(topic) {
        Some(b) => Some(MarketData::OrderBook(b)),
        None => None,
    };
    push_slot(&mut frames, book);
    assert(frame_views(frames@) =~= slot_frame(
        match engine@.state_of(topic@).order_book {
            Some(b) => Some(MarketDataView::OrderBook(b)),
            None => None,
        },
    ));
    push_trades(&mut frames, &engine.get_recent_trades(topic));
    push_agg_trades(&mut frames, &engine.get_recent_agg_trades(topic));
    push_candles(&mut frames, &engine.get_recent_candles(topic));
    let ticker = match engine.get_ticker(topic) {
        Some(t) => Some(MarketData::Ticker(t)),
        None => None,
    };
    push_slot(&mut frames, ticker);
    let book_ticker = match engine.get_book_ticker(topic) {
        Some(t) => Some(MarketData::BookTicker(t)),
        None => None,
    };
    push_slot(&mut frames, book_ticker);
    let mark_price = match engine.get_mark_price(topic) {
        Some(p) => Some(MarketData::MarkPrice(p)),
        None => None,
    };
    push_slot(&mut frames, mark_price);
    let funding_rate = match engine.get_funding_rate(topic) {
        Some(r) => Some(MarketData::FundingRate(r)),
        None => None,
    };
    push_slot(&mut frames, funding_rate);
    let open_interest = match engine.get_open_interest(topic) {
        Some(o) => Some(MarketData::OpenInterest(o)),
        None => None,
    };
    push_slot(&mut frames, open_interest);
    push_liquidations(&mut frames, &engine.get_recent_liquidations(topic));
    push_history(&mut frames, engine.get_history(topic, now, limit));
    frames
}

/// The topic a command is about.
pub open spec fn command_topic(command: CommandView) -> Seq<char> {
    topic_id(command.exchange, command.market_type, command.channel)
}

/// The stream configuration a connector is launched with for a command:
/// the one the client brings, else the configured default.
pub open spec fn launch_config(command: CommandView, app_config: AppConfig) -> StreamConfigView {
    match command.config {
        Some(c) => c,
        None => app_config.stream_config(),
    }
}

/// The interval of a history request: the first one the client's
/// configuration lists, else one minute.
pub open spec fn history_interval(command: CommandView) -> Seq<char> {
    match command.config {
        Some(c) => if c.kline_intervals.len() > 0 {
            c.kline_intervals[0]
        } else {
            "1m"@
        },
        None => "1m"@,
    }
}

/// What the client sees of a broadcast: forwarded where the event has a
/// topic the session has subscribed to, skipped otherwise.
pub open spec fn delivery_of(subscribed: Set<Seq<char>>, event: MarketDataView) -> Delivery {
    match event.topic() {
        Some(topic) => if subscribed.contains(topic) {
            Delivery::Forward
        } else {
            Delivery::Skip
        },
        None => Delivery::Skip,
    }
}

/// What handling a command comes to, for the session's topics, the engine
/// and the reply.
pub open spec fn command_handled(
    command: CommandView,
    app_config: AppConfig,
    now: u64,
    subscribed: Set<Seq<char>>,
    subscribed_after: Set<Seq<char>>,
    pre: EngineView,
    post: EngineView,
    reply: Reply,
) -> bool {
    let topic = command_topic(command);
    match command.action {
        CommandAction::Subscribe => {
            &&& subscribed_after == subscribed.insert(topic)
            &&& post == pre.request(topic)
            &&& reply matches Reply::Subscribed { launch, frames }
            &&& frame_views(frames@) == snapshot_frames(
                pre.state_of(topic),
                now,
                app_config.server_history_fetch_limit as nat,
            )
            &&& launch.is_some() == pre.is_new(topic)
            &&& launch matches Some(launched) ==> launch_of(
                command.exchange,
                command.market_type,
                command.channel,
                launch_config(command, app_config),
                app_config,
            ) == match launched {
                Ok(connector) => Ok::<ConnectorView, LaunchError>(connector@),
                Err(error) => Err::<ConnectorView, LaunchError>(error),
            }
        },
        CommandAction::Unsubscribe => {
            &&& subscribed_after == subscribed.remove(topic)
            &&& post == pre
            &&& reply is Unsubscribed
        },
        CommandAction::FetchHistory => {
            &&& subscribed_after == subscribed
            &&& post == pre
            &&& reply matches Reply::FetchHistory(request)
            &&& request@ == (HistoryRequestView {
                unique_id: topic,
                symbol: command.channel,
                market_type: command.market_type,
                interval: history_interval(command),
                limit: app_config.server_history_fetch_limit,
            })
        },
    }
}

/// What taking the venue's answer to a history request comes to: the
/// candles are loaded under the request's topic and handed back in one
/// envelope for the client that asked; or the answer is refused and nothing
/// changes.
pub open spec fn history_applied(
    request: HistoryRequestView,
    json: JsonView,
    pre: EngineView,
    post: EngineView,
    reply: Result<MarketData, HistoryError>,
) -> bool {
    match reply {
        Ok(envelope) => {
            &&& envelope@ matches MarketDataView::HistoricalCandles(candles)
            &&& json.as_array() matches Some(rows)
            &&& all_rows(rows)
            &&& klines_match(candles, rows, request.unique_id, request.interval)
            &&& post == if candles.len() == 0 {
                pre
            } else {
                pre.put(
                    request.unique_id,
                    pre.state_of(request.unique_id).with_history(candles),
                )
            }
        },
        Err(error) => {
            &&& post == pre
            &&& match json.as_array() {
                None => error == HistoryError::InvalidResponse,
                Some(rows) => error == HistoryError::InvalidCandle && !all_rows(rows),
            }
        },
    }
}

/// Takes the venue's parsed answer to a history request: reads the candles,
/// with the request's topic as their symbol, loads them into the registry
/// and returns them in one envelope, which goes to the client that asked
/// and to no one else.
pub fn apply_history(request: &HistoryRequest, json: &Json, engine: &mut Engine) -> (reply: Result<
    MarketData,
    HistoryError,
>)
    ensures
        history_applied(request@, json@, old(engine)@, final(engine)@, reply),
        final(engine)@.active == old(engine)@.active,
        old(engine)@.well_formed() ==> final(engine)@.well_formed(),
        old(engine)@.topics_agree() ==> final(engine)@.topics_agree(),
{
    let candles = match parse_kline_array(
        request.unique_id.as_str(),
        request.interval.as_str(),
        json,
    ) {
        Ok(c) => c,
        Err(error) => return Err(error),
    };
    proof {
        let rows = json@.as_array().unwrap();
        let kept = rows.filter(crate::rest::long_enough());
        assert(candles_carry(candles@, request.unique_id@)) by {
            assert forall|i: int| 0 <= i < candles@.len() implies (#[trigger] candles@[i]).symbol@
                == request.unique_id@ by {
                assert(crate::rest::kline_matches(
                    candles@[i],
                    kept[i],
                    request.unique_id@,
                    request.interval@,
                ));
            }
        }
    }
    engine.load_historical_candles(request.unique_id.clone(), candles.clone());
    Ok(MarketData::HistoricalCandles(candles))
}

/// Takes the body of the venue's answer to a history request: parses it
/// and goes on as `apply_history` does. A body that is not JSON is refused.
pub fn complete_history(request: &HistoryRequest, body: &str, engine: &mut Engine) -> (reply:
    Result<MarketData, HistoryError>)
    ensures
        match json_of_text(body@) {
            Some(json) => history_applied(request@, json, old(engine)@, final(engine)@, reply),
            None => reply == Err::<MarketData, HistoryError>(HistoryError::Malformed)
                && final(engine)@ == old(engine)@,
        },
        final(engine)@.active == old(engine)@.active,
        old(engine)@.well_formed() ==> final(engine)@.well_formed(),
        old(engine)@.topics_agree() ==> final(engine)@.topics_agree(),
{
    match parse(body) {
        Some(json) => apply_history(request, &json, engine),
        None => Err(HistoryError::Malformed),
    }
}

/// The state of one client session.
pub struct Session {
    subscribed_topics: TopicSet,
}

impl View for Session {
    type V = Set<Seq<char>>;

    closed spec fn view(&self) -> Set<Seq<char>> {
        self.subscribed_topics@
    }
}

impl Session {
    /// A session that has subscribed to nothing.
    pub fn new() -> (session: Session)
        ensures
            session@ == Set::<Seq<char>>::empty(),
    {
        Session { subscribed_topics: TopicSet::new() }
    }

    /// Whether the session has subscribed to `topic`.
    pub fn is_subscribed(&self, topic: &str) -> (subscribed: bool)
        ensures
            subscribed == self@.contains(topic@),
    {
        self.subscribed_topics.contains(topic)
    }

    /// Handles a command. A subscription is recorded, and the connector
    /// asked for, before the snapshot is taken; what is published for the
    /// topic from then on is forwarded to the client.
    pub fn handle_command(
        &mut self,
        command: Command,
        engine: &mut Engine,
        app_config: &AppConfig,
        now: u64,
    ) -> (reply: Reply)
        ensures
            command_handled(
                command@,
                *app_config,
                now,
                old(self)@,
                final(self)@,
                old(engine)@,
                final(engine)@,
                reply,
            ),
            old(engine)@.well_formed() ==> final(engine)@.well_formed(),
            old(engine)@.topics_agree() ==> final(engine)@.topics_agree(),
    {
        let topic = unique_id(command.exchange, command.market_type, command.channel.as_str());
        match command.action {
            CommandAction::Subscribe => {
                let first = engine.request_ingestion(topic.clone());
                let launch = if first {
                    let stream_config = match command.config {
                        Some(c) => c,
                        None => app_config.get_stream_config(),
                    };
                    Some(
                        spawn_connector(
                            command.exchange,
                            command.market_type,
                            command.channel,
                            stream_config,
                            app_config,
                        ),
                    )
                } else {
                    None
                };
                let _ = self.subscribed_topics.insert(topic.clone());
                let frames = snapshot(
                    engine,
                    topic.as_str(),
                    now,
                    app_config.server_history_fetch_limit,
                );
                Reply::Subscribed { launch, frames }
            },
            CommandAction::Unsubscribe => {
                self.subscribed_topics.remove(topic.as_str());
                Reply::Unsubscribed
            },
            CommandAction::FetchHistory => {
                let interval = match &command.config {
                    Some(c) => {
                        if c.kline_intervals.len() > 0 {
                            proof {
                                assert(c@.kline_intervals[0] == c.kline_intervals@[0]@);
                            }
                            c.kline_intervals[0].clone()
                        } else {
                            "1m".to_owned()
                        }
                    },
                    None => "1m".to_owned(),
                };
                Reply::FetchHistory(
                    HistoryRequest {
                        unique_id: topic,
                        symbol: command.channel,
                        market_type: command.market_type,
                        interval,
                        limit: app_config.server_history_fetch_limit,
                    },
                )
            },
        }
    }

    /// Handles a text frame of the client: a command is handled as
    /// `handle_command` does; any other text is passed over and changes
    /// nothing.
    pub fn on_client_text(
        &mut self,
        text: &str,
        engine: &mut Engine,
        app_config: &AppConfig,
        now: u64,
    ) -> (reply: Reply)
        ensures
            match command_of_text(text@) {
                Some(command) => command_handled(
                    command,
                    *app_config,
                    now,
                    old(self)@,
                    final(self)@,
                    old(engine)@,
                    final(engine)@,
                    reply,
                ),
                None => reply is Ignored && final(self)@ == old(self)@
                    && final(engine)@ == old(engine)@,
            },
            old(engine)@.well_formed() ==> final(engine)@.well_formed(),
            old(engine)@.topics_agree() ==> final(engine)@.topics_agree(),
    {
        match parse_command(text) {
            Some(command) => self.handle_command(command, engine, app_config, now),
            None => Reply::Ignored,
        }
    }

    /// Whether what the client's socket yields ends the session: anything
    /// but a text frame does.
    pub fn on_client_frame(&self, frame: ClientFrame) -> (delivery: Delivery)
        ensures
            delivery == (if frame == ClientFrame::Text {
                Delivery::Skip
            } else {
                Delivery::End
            }),
    {
        match frame {
            ClientFrame::Text => Delivery::Skip,
            ClientFrame::Other => Delivery::End,
        }
    }

    /// What to do with an event from the bus: forward it exactly when it
    /// has a topic and the session has subscribed to it.
    pub fn on_message(&self, event: &MarketData) -> (delivery: Delivery)
        ensures
            delivery == delivery_of(self@, event@),
    {
        match event.topic() {
            Some(topic) => {
                if self.subscribed_topics.contains(topic.as_str()) {
                    Delivery::Forward
                } else {
                    Delivery::Skip
                }
            },
            None => Delivery::Skip,
        }
    }

    /// What to do when the bus reports that the session fell behind and
    /// `skipped` messages are lost to it: go on. A slow client loses
    /// messages, never its session.
    pub fn on_lagged(&self, skipped: u64) -> (delivery: Delivery)
        ensures
            delivery == Delivery::Skip,
    {
        Delivery::Skip
    }

    /// What to do when the bus is closed: end the session.
    pub fn on_closed(&self) -> (delivery: Delivery)
        ensures
            delivery == Delivery::End,
    {
        Delivery::End
    }
}

/// Unsubscribing from a topic and subscribing to it again leaves the
/// session with the topics that subscribing alone leaves it with, and the
/// engine with the ingestions that one request leaves it with.
pub proof fn lemma_resubscribe(subscribed: Set<Seq<char>>, engine: EngineView, topic: Seq<char>)
    ensures
        subscribed.remove(topic).insert(topic) == subscribed.insert(topic),
        engine.request(topic).request(topic) == engine.request(topic),
{
    crate::topics::lemma_remove_then_insert(subscribed, topic);
    crate::engine::lemma_request_is_idempotent(engine, topic);
}

/// Once a topic is subscribed, every event that carries it is forwarded.
pub proof fn lemma_subscribed_is_forwarded(
    subscribed: Set<Seq<char>>,
    topic: Seq<char>,
    event: MarketDataView,
)
    requires
        event.topic() == Some(topic),
    ensures
        delivery_of(subscribed.insert(topic), event) == Delivery::Forward,
{
}

} // verus!
