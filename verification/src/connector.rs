//! The connector supervisor: what a connector is launched with, the state
//! machine of its connect and reconnect loop, and its handling of frames.
//!
//! The program around the library owns the socket and the clock. It tells
//! the connector what happened (`ConnectorEvent`) and does what the
//! connector answers (`ConnectorAction`).

use vstd::prelude::*;
use crate::config::AppConfig;
use crate::engine::Engine;
use crate::ingest::{all_wanted, handle_message, message_handled};
use crate::models::{
    texts, Exchange, MarketData, MarketType, StreamConfig, StreamConfigView,
};
use crate::normalize::DecodeError;
use crate::streams::{build_streams, build_url, select_base, stream_base, stream_names, stream_url};
use crate::text::{lowercase, topic_id, unique_id};

verus! {

/// Where a connector stands in its loop.
#[derive(Debug, Copy, PartialEq, Eq, Structural)]
pub enum Phase {
    /// About to open, or opening, the socket.
    Connecting,
    /// Reading frames.
    Connected,
    /// The stream has ended; the socket is being let go.
    Draining,
    /// Waiting out the backoff.
    Sleeping,
    /// Given up for good: there is nothing to connect to.
    Stopped,
}

impl Clone for Phase {
    fn clone(&self) -> (r: Self)
        ensures
            r == *self,
    {
        *self
    }
}

/// What the program reports to a connector.
#[derive(Debug, Copy, PartialEq, Eq, Structural)]
pub enum ConnectorEvent {
    /// The handshake succeeded.
    HandshakeOk,
    /// The handshake failed.
    HandshakeFailed,
    /// A read failed, the server closed, or the stream ended.
    StreamEnded,
    /// The socket has been let go.
    Drained,
    /// The sleep is over.
    SleepExpired,
}

impl Clone for ConnectorEvent {
    fn clone(&self) -> (r: Self)
        ensures
            r == *self,
    {
        *self
    }
}

/// Why a connector stopped.
#[derive(Debug, Copy, PartialEq, Eq, Structural)]
pub enum StopReason {
    /// The configuration asks for no stream.
    NoStreams,
    /// The stream URL is not a URL.
    BadUrl,
}

impl Clone for StopReason {
    fn clone(&self) -> (r: Self)
        ensures
            r == *self,
    {
        *self
    }
}

/// What a connector asks the program to do next.
#[derive(Debug, PartialEq, Eq)]
pub enum ConnectorAction {
    /// Open a socket to `url`, then report `HandshakeOk` or `HandshakeFailed`.
    Connect { url: String },
    /// Read frames and hand each text frame to `handle_message`, until the
    /// stream ends; then report `StreamEnded`.
    Read,
    /// Let the socket go, then report `Drained`.
    Drain,
    /// Sleep for `seconds`, then report `SleepExpired`.
    Sleep { seconds: u64 },
    /// Ask the connector how to connect (`Connector::connect`).
    Reconnect,
    /// End the task.
    Stop(StopReason),
    /// The event does not belong to the connector's phase: go on as before.
    Ignore,
}

/// What a `ConnectorAction` holds.
pub ghost enum ConnectorActionView {
    Connect { url: Seq<char> },
    Read,
    Drain,
    Sleep { seconds: u64 },
    Reconnect,
    Stop(StopReason),
    Ignore,
}

impl View for ConnectorAction {
    type V = ConnectorActionView;

    open spec fn view(&self) -> ConnectorActionView {
        match self {
            ConnectorAction::Connect { url } => ConnectorActionView::Connect { url: url@ },
            ConnectorAction::Read => ConnectorActionView::Read,
            ConnectorAction::Drain => ConnectorActionView::Drain,
            ConnectorAction::Sleep { seconds } => ConnectorActionView::Sleep { seconds: *seconds },
            ConnectorAction::Reconnect => ConnectorActionView::Reconnect,
            ConnectorAction::Stop(reason) => ConnectorActionView::Stop(*reason),
            ConnectorAction::Ignore => ConnectorActionView::Ignore,
        }
    }
}

/// What the venue's socket yields while a connector reads.
#[derive(Debug, Copy, PartialEq, Eq, Structural)]
pub enum SocketFrame {
    /// A text frame.
    Text,
    /// A binary frame.
    Binary,
    /// A ping; the transport answers it.
    Ping,
    /// A pong.
    Pong,
    /// A close frame.
    Close,
    /// A read error.
    Error,
}

impl Clone for SocketFrame {
    fn clone(&self) -> (r: Self)
        ensures
            r == *self,
    {
        *self
    }
}

/// What to do with what the socket yields.
#[derive(Debug, Copy, PartialEq, Eq, Structural)]
pub enum ReadStep {
    /// Hand the text to `handle_message` and read on.
    Handle,
    /// Read on.
    Pass,
    /// Leave the read loop.
    End,
}

impl Clone for ReadStep {
    fn clone(&self) -> (r: Self)
        ensures
            r == *self,
    {
        *self
    }
}

/// What a connector does with what the socket yields: a text frame is
/// handled, a close frame or a read error ends the reading, and anything
/// else is passed over.
pub open spec fn read_step_of(frame: SocketFrame) -> ReadStep {
    match frame {
        SocketFrame::Text => ReadStep::Handle,
        SocketFrame::Close => ReadStep::End,
        SocketFrame::Error => ReadStep::End,
        _ => ReadStep::Pass,
    }
}

/// What to do with what the socket yields.
pub fn read_step(frame: SocketFrame) -> (step: ReadStep)
    ensures
        step == read_step_of(frame),
{
    match frame {
        SocketFrame::Text => ReadStep::Handle,
        SocketFrame::Close => ReadStep::End,
        SocketFrame::Error => ReadStep::End,
        _ => ReadStep::Pass,
    }
}

/// Why no connector could be made.
#[derive(Debug, Copy, PartialEq, Eq, Structural)]
pub enum LaunchError {
    /// There is no connector for the venue.
    UnsupportedExchange,
    /// The venue has no stream endpoint for the market type.
    UnsupportedMarket,
}

impl Clone for LaunchError {
    fn clone(&self) -> (r: Self)
        ensures
            r == *self,
    {
        *self
    }
}

/// What the URL parser made of a connector's stream URL.
#[derive(Debug, PartialEq, Eq)]
pub enum UrlOutcome {
    /// No stream is asked for, so there is no URL.
    NoStreams,
    /// The parser rejected the URL.
    Rejected,
    /// The parser accepted the URL; this is how it writes it.
    Accepted(String),
}

/// What a `UrlOutcome` holds.
pub ghost enum UrlOutcomeView {
    NoStreams,
    Rejected,
    Accepted(Seq<char>),
}

impl View for UrlOutcome {
    type V = UrlOutcomeView;

    open spec fn view(&self) -> UrlOutcomeView {
        match self {
            UrlOutcome::NoStreams => UrlOutcomeView::NoStreams,
            UrlOutcome::Rejected => UrlOutcomeView::Rejected,
            UrlOutcome::Accepted(url) => UrlOutcomeView::Accepted(url@),
        }
    }
}

#[verifier::external_type_specification]
#[verifier::external_body]
pub struct ExParseError(url::ParseError);

/// What `url::Url::parse` makes of a text: the serialization of the URL it
/// parses to, or `None` where it rejects the text.
pub uninterp spec fn normalized_url(text: Seq<char>) -> Option<Seq<char>>;

/// Calls `url::Url::parse` and takes the URL's serialization (`Url::as_str`).
/// The contract says only that the outcome is a function of the text.
#[verifier::external_body]
fn parse_url(text: &str) -> (parsed: Result<String, url::ParseError>)
    ensures
        match parsed {
            Ok(url) => normalized_url(text@) == Some(url@),
            Err(_) => normalized_url(text@).is_none(),
        },
{
    match url::Url::parse(text) {
        Ok(url) => Ok(url.as_str().to_owned()),
        Err(error) => Err(error),
    }
}

/// The smaller of twice the backoff and the ceiling.
pub open spec fn next_backoff(backoff: u64, max_backoff: u64) -> u64 {
    if backoff * 2 <= max_backoff {
        (backoff * 2) as u64
    } else {
        max_backoff
    }
}

/// What a `Connector` holds.
pub ghost struct ConnectorView {
    /// The raw symbol, as the venue names it.
    pub symbol: Seq<char>,
    /// The topic under which the connector's events are kept and published.
    pub unique_id: Seq<char>,
    pub market_type: MarketType,
    /// The sanitized stream configuration.
    pub config: StreamConfigView,
    pub base_url: Seq<char>,
    pub order_book_depth: Seq<char>,
    /// Ceiling of the backoff, in seconds.
    pub max_backoff: u64,
    /// The current backoff, in seconds.
    pub backoff: u64,
    pub phase: Phase,
}

impl ConnectorView {
    /// The names of the streams the connector asks the venue for.
    pub open spec fn streams(self) -> Seq<Seq<char>> {
        stream_names(lowercase(self.symbol), self.config, self.order_book_depth)
    }

    /// The text of the stream URL, before the URL parser has seen it.
    pub open spec fn url_text(self) -> Seq<char> {
        stream_url(self.base_url, self.streams())
    }

    /// What the URL parser makes of the stream URL.
    pub open spec fn url_outcome(self) -> UrlOutcomeView {
        if self.streams().len() == 0 {
            UrlOutcomeView::NoStreams
        } else {
            match normalized_url(self.url_text()) {
                Some(url) => UrlOutcomeView::Accepted(url),
                None => UrlOutcomeView::Rejected,
            }
        }
    }

    /// The connector after it has been asked how to connect, given what the
    /// URL parser made of its URL: it stops where there is nothing to
    /// connect to, and is as before otherwise.
    pub open spec fn connecting(self, url: UrlOutcomeView) -> ConnectorView {
        if self.phase == Phase::Connecting && !(url is Accepted) {
            ConnectorView { phase: Phase::Stopped, ..self }
        } else {
            self
        }
    }

    /// The answer to being asked how to connect.
    pub open spec fn connect_action(self, url: UrlOutcomeView) -> ConnectorActionView {
        if self.phase != Phase::Connecting {
            ConnectorActionView::Ignore
        } else {
            match url {
                UrlOutcomeView::NoStreams => ConnectorActionView::Stop(StopReason::NoStreams),
                UrlOutcomeView::Rejected => ConnectorActionView::Stop(StopReason::BadUrl),
                UrlOutcomeView::Accepted(u) => ConnectorActionView::Connect { url: u },
            }
        }
    }

    /// The connector after `event`.
    pub open spec fn after(self, event: ConnectorEvent) -> ConnectorView {
        match (self.phase, event) {
            (Phase::Connecting, ConnectorEvent::HandshakeOk) => ConnectorView {
                phase: Phase::Connected,
                backoff: 1,
                ..self
            },
            (Phase::Connecting, ConnectorEvent::HandshakeFailed) => ConnectorView {
                phase: Phase::Sleeping,
                ..self
            },
            (Phase::Connected, ConnectorEvent::StreamEnded) => ConnectorView {
                phase: Phase::Draining,
                ..self
            },
            (Phase::Draining, ConnectorEvent::Drained) => ConnectorView {
                phase: Phase::Sleeping,
                ..self
            },
            (Phase::Sleeping, ConnectorEvent::SleepExpired) => ConnectorView {
                phase: Phase::Connecting,
                backoff: next_backoff(self.backoff, self.max_backoff),
                ..self
            },
            _ => self,
        }
    }

    /// The answer to `event`.
    pub open spec fn action(self, event: ConnectorEvent) -> ConnectorActionView {
        match (self.phase, event) {
            (Phase::Connecting, ConnectorEvent::HandshakeOk) => ConnectorActionView::Read,
            (Phase::Connecting, ConnectorEvent::HandshakeFailed) => ConnectorActionView::Sleep {
                seconds: self.backoff,
            },
            (Phase::Connected, ConnectorEvent::StreamEnded) => ConnectorActionView::Drain,
            (Phase::Draining, ConnectorEvent::Drained) => ConnectorActionView::Sleep {
                seconds: self.backoff,
            },
            (Phase::Sleeping, ConnectorEvent::SleepExpired) => ConnectorActionView::Reconnect,
            _ => ConnectorActionView::Ignore,
        }
    }
}

/// The backoff never passes the larger of one second and the ceiling, and a
/// stopped connector stays stopped.
pub proof fn lemma_connector_step(connector: ConnectorView, event: ConnectorEvent)
    ensures
        connector.backoff <= 1 || connector.backoff <= connector.max_backoff ==> {
            let next = connector.after(event);
            next.backoff <= 1 || next.backoff <= next.max_backoff
        },
        connector.phase == Phase::Stopped ==> connector.after(event) == connector
            && connector.action(event) == ConnectorActionView::Ignore,
        connector.after(event).config == connector.config,
        connector.after(event).unique_id == connector.unique_id,
{
}

/// The state of one connector.
#[derive(Debug)]
pub struct Connector {
    symbol: String,
    unique_id: String,
    market_type: MarketType,
    config: StreamConfig,
    base_url: String,
    order_book_depth: String,
    max_backoff: u64,
    backoff_seconds: u64,
    phase: Phase,
}

impl View for Connector {
    type V = ConnectorView;

    closed spec fn view(&self) -> ConnectorView {
        ConnectorView {
            symbol: self.symbol@,
            unique_id: self.unique_id@,
            market_type: self.market_type,
            config: self.config@,
            base_url: self.base_url@,
            order_book_depth: self.order_book_depth@,
            max_backoff: self.max_backoff,
            backoff: self.backoff_seconds,
            phase: self.phase,
        }
    }
}

/// What launching a connector gives: a connector in `Connecting`, with a
/// backoff of one second, the composite topic id and the configuration
/// sanitized for the market type; or the reason there is none.
pub open spec fn launch_of(
    exchange: Exchange,
    market_type: MarketType,
    symbol: Seq<char>,
    stream_config: StreamConfigView,
    app_config: AppConfig,
) -> Result<ConnectorView, LaunchError> {
    if exchange != Exchange::Binance {
        Err(LaunchError::UnsupportedExchange)
    } else {
        match stream_base(app_config, market_type) {
            None => Err(LaunchError::UnsupportedMarket),
            Some(base) => Ok(
                ConnectorView {
                    symbol,
                    unique_id: topic_id(exchange, market_type, symbol),
                    market_type,
                    config: stream_config.sanitized(market_type),
                    base_url: base,
                    order_book_depth: app_config.order_book_depth@,
                    max_backoff: app_config.binance_reconnect_delay,
                    backoff: 1,
                    phase: Phase::Connecting,
                },
            ),
        }
    }
}

/// Makes the connector of `symbol` on a venue and market type. The stream
/// configuration is sanitized for the market type here, once; the connector
/// subscribes to, and lets through, only what is left switched on. Only the
/// first venue has a connector, and it has no endpoint for options.
pub fn spawn_connector(
    exchange: Exchange,
    market_type: MarketType,
    symbol: String,
    stream_config: StreamConfig,
    app_config: &AppConfig,
) -> (launched: Result<Connector, LaunchError>)
    ensures
        match launched {
            Ok(connector) => launch_of(exchange, market_type, symbol@, stream_config@, *app_config)
                == Ok::<ConnectorView, LaunchError>(connector@),
            Err(error) => launch_of(exchange, market_type, symbol@, stream_config@, *app_config)
                == Err::<ConnectorView, LaunchError>(error),
        },
{
    match exchange {
        Exchange::Binance => {},
        _ => return Err(LaunchError::UnsupportedExchange),
    }
    let base_url = match select_base(app_config, market_type) {
        Some(base) => base,
        None => return Err(LaunchError::UnsupportedMarket),
    };
    let id = unique_id(exchange, market_type, symbol.as_str());
    Ok(
        Connector {
            symbol,
            unique_id: id,
            market_type,
            config: stream_config.sanitize_for_market(market_type),
            base_url,
            order_book_depth: app_config.order_book_depth.clone(),
            max_backoff: app_config.binance_reconnect_delay,
            backoff_seconds: 1,
            phase: Phase::Connecting,
        },
    )
}

impl Connector {
    /// The topic under which the connector's events are kept and published.
    pub fn unique_id(&self) -> (id: &String)
        ensures
            id@ == self@.unique_id,
    {
        &self.unique_id
    }

    /// The sanitized stream configuration.
    pub fn config(&self) -> (config: &StreamConfig)
        ensures
            config@ == self@.config,
    {
        &self.config
    }

    /// Where the connector stands in its loop.
    pub fn phase(&self) -> (phase: Phase)
        ensures
            phase == self@.phase,
    {
        self.phase
    }

    /// The current backoff, in seconds.
    pub fn backoff_seconds(&self) -> (seconds: u64)
        ensures
            seconds == self@.backoff,
    {
        self.backoff_seconds
    }

    /// The names of the streams the connector asks the venue for.
    pub fn streams(&self) -> (names: Vec<String>)
        ensures
            texts(names@) == self@.streams(),
    {
        build_streams(self.symbol.as_str(), &self.config, self.order_book_depth.as_str())
    }

    /// Composes the stream URL and has the URL parser look at it.
    pub fn resolve_url(&self) -> (outcome: UrlOutcome)
        ensures
            outcome@ == self@.url_outcome(),
    {
        let names = self.streams();
        if names.len() == 0 {
            return UrlOutcome::NoStreams;
        }
        let text = build_url(self.base_url.as_str(), &names);
        match parse_url(text.as_str()) {
            Ok(url) => UrlOutcome::Accepted(url),
            Err(_) => UrlOutcome::Rejected,
        }
    }

    /// Answers how to connect, given what the URL parser made of the stream
    /// URL: with the URL to connect to, or with a stop where no stream is
    /// asked for or the URL is none. Outside `Connecting` the question is
    /// ignored.
    pub fn connect_with(&mut self, url: UrlOutcome) -> (action: ConnectorAction)
        ensures
            final(self)@ == old(self)@.connecting(url@),
            action@ == old(self)@.connect_action(url@),
    {
        match self.phase {
            Phase::Connecting => {},
            _ => return ConnectorAction::Ignore,
        }
        match url {
            UrlOutcome::NoStreams => {
                self.phase = Phase::Stopped;
                ConnectorAction::Stop(StopReason::NoStreams)
            },
            UrlOutcome::Rejected => {
                self.phase = Phase::Stopped;
                ConnectorAction::Stop(StopReason::BadUrl)
            },
            UrlOutcome::Accepted(u) => ConnectorAction::Connect { url: u },
        }
    }

    /// Answers how to connect: composes the stream URL anew and answers as
    /// `connect_with` does for what the URL parser makes of it.
    pub fn connect(&mut self) -> (action: ConnectorAction)
        ensures
            final(self)@ == old(self)@.connecting(old(self)@.url_outcome()),
            action@ == old(self)@.connect_action(old(self)@.url_outcome()),
    {
        let url = self.resolve_url();
        self.connect_with(url)
    }

    /// Takes note of what happened and answers what to do next. A successful
    /// handshake resets the backoff to one second; each sleep is followed by
    /// a doubling of the backoff, up to the ceiling.
    pub fn on_event(&mut self, event: ConnectorEvent) -> (action: ConnectorAction)
        ensures
            final(self)@ == old(self)@.after(event),
            action@ == old(self)@.action(event),
    {
        match (self.phase, event) {
            (Phase::Connecting, ConnectorEvent::HandshakeOk) => {
                self.phase = Phase::Connected;
                self.backoff_seconds = 1;
                ConnectorAction::Read
            },
            (Phase::Connecting, ConnectorEvent::HandshakeFailed) => {
                self.phase = Phase::Sleeping;
                ConnectorAction::Sleep { seconds: self.backoff_seconds }
            },
            (Phase::Connected, ConnectorEvent::StreamEnded) => {
                self.phase = Phase::Draining;
                ConnectorAction::Drain
            },
            (Phase::Draining, ConnectorEvent::Drained) => {
                self.phase = Phase::Sleeping;
                ConnectorAction::Sleep { seconds: self.backoff_seconds }
            },
            (Phase::Sleeping, ConnectorEvent::SleepExpired) => {
                self.phase = Phase::Connecting;
                self.backoff_seconds = if self.backoff_seconds > self.max_backoff / 2 {
                    self.max_backoff
                } else {
                    self.backoff_seconds * 2
                };
                ConnectorAction::Reconnect
            },
            _ => ConnectorAction::Ignore,
        }
    }

    /// Handles one inbound text frame: see `ingest::handle_message`. Every
    /// event returned carries the connector's topic and is of a family, and
    /// for a candle of an interval, that the sanitized configuration asks
    /// for.
    pub fn handle_message(&self, text: &str, engine: &mut Engine) -> (outcome: Result<
        Vec<MarketData>,
        DecodeError,
    >)
        ensures
            message_handled(
                text@,
                self@.unique_id,
                self@.config,
                old(engine)@,
                final(engine)@,
                outcome,
            ),
            outcome matches Ok(events) ==> all_wanted(events@, self@.config, self@.unique_id),
            outcome is Err ==> final(engine)@ == old(engine)@,
            final(engine)@.active == old(engine)@.active,
            old(engine)@.well_formed() ==> final(engine)@.well_formed(),
            old(engine)@.topics_agree() ==> final(engine)@.topics_agree(),
    {
        handle_message(self.unique_id.as_str(), text, &self.config, engine)
    }
}

/// Filter honesty: a family that the sanitized configuration has switched
/// off is the family of no event that handling a frame returns.
pub proof fn lemma_filter_honesty(
    events: Seq<MarketData>,
    config: StreamConfigView,
    topic: Seq<char>,
    family: crate::models::Family,
)
    requires
        all_wanted(events, config, topic),
        !config.enables(family),
    ensures
        forall|i: int| 0 <= i < events.len() ==> (#[trigger] events[i])@.family() != family,
{
}

} // verus!
