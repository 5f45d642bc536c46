//! The shards of a bot: how many there are, in which order and with which
//! pauses they are opened, the handshake of each, and the registry of those
//! that stand.
use crate::bot::{Bot, ShardingOption};
use crate::error::{CodecError, ConfigError, GatewayError, HandshakeError};
use crate::gateway::{
    Gateway, GatewayCommand, GatewayCommandView, GatewayConnectionIdentifier, Inbound,
    InboundView, OPCODE_HELLO, OPCODE_IDENTIFY,
};
use crate::gateway_structs::{
    GetGatewayBotResponse, Hello, Identify, IdentifyConnectionProperties,
    IdentifyConnectionPropertiesView, IdentifyView, Payload, PayloadView,
};
use crate::gateway_url::{connect_url_text, gateway_connect_url, parse_url, url_parsed};
use crate::DISCORD_API_VERSION;
use std::collections::HashMap;
use std::sync::Arc;
use vstd::prelude::*;

verus! {

/// The pause between two buckets of shards, in milliseconds.
pub const BUCKET_COOLDOWN_MILLIS: u64 = 5000;

/// The number of shards that a bot runs: the gateway's recommendation, or
/// the amount that was set, which must not be zero.
pub open spec fn shard_amount_of(option: ShardingOption, recommended: u32) -> Result<
    u32,
    ConfigError,
> {
    match option {
        ShardingOption::Automatic => Ok(recommended),
        ShardingOption::SetAmount(amount) => if amount == 0 {
            Err(ConfigError::InvalidShardCount)
        } else {
            Ok(amount)
        },
    }
}

/// Decides how many shards a bot runs.
pub fn resolve_shard_amount(option: ShardingOption, recommended: u32) -> (res: Result<
    u32,
    ConfigError,
>)
    ensures
        res == shard_amount_of(option, recommended),
{
    match option {
        ShardingOption::Automatic => Ok(recommended),
        ShardingOption::SetAmount(amount) => if amount == 0 {
            Err(ConfigError::InvalidShardCount)
        } else {
            Ok(amount)
        },
    }
}

/// One step of bringing the shards up.
#[derive(Debug, Clone, Copy, PartialEq, Eq, Structural)]
pub enum StartupStep {
    /// Wait for so many milliseconds: a bucket of shards has been opened.
    Cooldown { millis: u64 },
    /// Open the shard with this id.
    Open { shard_id: u32 },
}

/// Whether the startup pauses before it opens a shard: before the first
/// shard of every bucket but the first.
pub open spec fn pauses_before(shard_id: nat, max_concurrency: u32) -> bool {
    shard_id != 0 && shard_id % (max_concurrency as nat) == 0
}

/// The steps that bring `shard_amount` shards up, in buckets of
/// `max_concurrency`.
pub open spec fn startup_steps(shard_amount: nat, max_concurrency: u32) -> Seq<StartupStep>
    decreases shard_amount,
{
    if shard_amount == 0 {
        Seq::empty()
    } else {
        let shard_id = (shard_amount - 1) as nat;
        let before = startup_steps(shard_id, max_concurrency);
        let open = StartupStep::Open { shard_id: shard_id as u32 };
        if pauses_before(shard_id, max_concurrency) {
            before.push(StartupStep::Cooldown { millis: BUCKET_COOLDOWN_MILLIS }).push(open)
        } else {
            before.push(open)
        }
    }
}

/// The number of pauses among some steps.
pub open spec fn cooldowns(steps: Seq<StartupStep>) -> nat
    decreases steps.len(),
{
    if steps.len() == 0 {
        0
    } else {
        cooldowns(steps.drop_last()) + if steps.last() is Cooldown {
            1nat
        } else {
            0nat
        }
    }
}

/// The shards that some steps open, in the order in which they open them.
pub open spec fn opened(steps: Seq<StartupStep>) -> Seq<u32>
    decreases steps.len(),
{
    if steps.len() == 0 {
        Seq::empty()
    } else {
        match steps.last() {
            StartupStep::Open { shard_id } => opened(steps.drop_last()).push(shard_id),
            StartupStep::Cooldown { .. } => opened(steps.drop_last()),
        }
    }
}

/// The number of buckets that `shard_amount` shards fill: the amount divided
/// by the size of a bucket, rounded up.
pub open spec fn buckets(shard_amount: nat, max_concurrency: u32) -> nat {
    ((shard_amount + max_concurrency - 1) / (max_concurrency as int)) as nat
}

proof fn lemma_cooldowns_push(steps: Seq<StartupStep>, step: StartupStep)
    ensures
        cooldowns(steps.push(step)) == cooldowns(steps) + if step is Cooldown {
            1nat
        } else {
            0nat
        },
{
    assert(steps.push(step).drop_last() =~= steps);
}

proof fn lemma_opened_push(steps: Seq<StartupStep>, step: StartupStep)
    ensures
        opened(steps.push(step)) == match step {
            StartupStep::Open { shard_id } => opened(steps).push(shard_id),
            StartupStep::Cooldown { .. } => opened(steps),
        },
{
    assert(steps.push(step).drop_last() =~= steps);
}

/// One shard more fills one bucket more exactly where the startup pauses
/// before it.
proof fn lemma_buckets_step(shard_id: nat, max_concurrency: u32)
    requires
        max_concurrency > 0,
        shard_id > 0,
    ensures
        buckets(shard_id + 1, max_concurrency) == buckets(shard_id, max_concurrency) + if pauses_before(
            shard_id,
            max_concurrency,
        ) {
            1nat
        } else {
            0nat
        },
{
    let b = max_concurrency as int;
    let n = shard_id as int;
    // n = q * b + r with 0 <= r < b
    let q = n / b;
    let r = n % b;
    assert(n == q * b + r && 0 <= r < b) by (nonlinear_arith)
        requires
            b > 0,
            q == n / b,
            r == n % b,
    ;
    if r == 0 {
        // n + b - 1 = q * b + (b - 1), n + b = (q + 1) * b
        assert((n + b - 1) / b == q) by (nonlinear_arith)
            requires
                b > 0,
                n == q * b,
        ;
        assert((n + 1 + b - 1) / b == q + 1) by (nonlinear_arith)
            requires
                b > 0,
                n == q * b,
        ;
    } else {
        assert((n + b - 1) / b == q + 1) by (nonlinear_arith)
            requires
                b > 0,
                n == q * b + r,
                0 < r < b,
        ;
        assert((n + 1 + b - 1) / b == q + 1) by (nonlinear_arith)
            requires
                b > 0,
                n == q * b + r,
                0 < r < b,
        ;
    }
}

/// Startup with the bucketing rule, for any number of shards and any size
/// of a bucket but zero: the shards are opened in strictly increasing order,
/// each of them once; there is one pause less than there are buckets; and
/// every pause lasts the fixed cooldown.
pub proof fn lemma_startup_steps(shard_amount: nat, max_concurrency: u32)
    requires
        shard_amount > 0,
        max_concurrency > 0,
        shard_amount <= u32::MAX,
    ensures
        opened(startup_steps(shard_amount, max_concurrency)) == Seq::new(
            shard_amount,
            |i: int| i as u32,
        ),
        cooldowns(startup_steps(shard_amount, max_concurrency)) == buckets(
            shard_amount,
            max_concurrency,
        ) - 1,
        forall|i: int|
            0 <= i < startup_steps(shard_amount, max_concurrency).len() && (
            #[trigger] startup_steps(shard_amount, max_concurrency)[i]) is Cooldown
                ==> startup_steps(shard_amount, max_concurrency)[i]->millis
                == BUCKET_COOLDOWN_MILLIS,
    decreases shard_amount,
{
    let shard_id = (shard_amount - 1) as nat;
    let before = startup_steps(shard_id, max_concurrency);
    let open = StartupStep::Open { shard_id: shard_id as u32 };
    let pause = StartupStep::Cooldown { millis: BUCKET_COOLDOWN_MILLIS };
    let steps = startup_steps(shard_amount, max_concurrency);
    if shard_id == 0 {
        assert(before =~= Seq::empty());
        assert(!pauses_before(shard_id, max_concurrency));
        lemma_opened_push(before, open);
        lemma_cooldowns_push(before, open);
        assert(buckets(1, max_concurrency) == 1) by {
            let b = max_concurrency as int;
            assert((1 + b - 1) / b == 1) by (nonlinear_arith)
                requires
                    b > 0,
            ;
        }
    } else {
        lemma_startup_steps(shard_id, max_concurrency);
        lemma_buckets_step(shard_id, max_concurrency);
        if pauses_before(shard_id, max_concurrency) {
            lemma_opened_push(before, pause);
            lemma_opened_push(before.push(pause), open);
            lemma_cooldowns_push(before, pause);
            lemma_cooldowns_push(before.push(pause), open);
        } else {
            lemma_opened_push(before, open);
            lemma_cooldowns_push(before, open);
        }
    }
    assert(opened(steps) =~= Seq::new(shard_amount, |i: int| i as u32));
}

/// Plans the startup of `shard_amount` shards in buckets of
/// `max_concurrency`.
pub fn startup_schedule(shard_amount: u32, max_concurrency: u32) -> (steps: Vec<StartupStep>)
    requires
        shard_amount > 0 ==> max_concurrency > 0,
    ensures
        steps@ == startup_steps(shard_amount as nat, max_concurrency),
{
    let mut steps: Vec<StartupStep> = Vec::new();
    let mut shard_id: u32 = 0;
    while shard_id < shard_amount
        invariant
            shard_id <= shard_amount,
            shard_amount > 0 ==> max_concurrency > 0,
            steps@ == startup_steps(shard_id as nat, max_concurrency),
        decreases shard_amount - shard_id,
    {
        if shard_id % max_concurrency == 0 && shard_id != 0 {
            steps.push(StartupStep::Cooldown { millis: BUCKET_COOLDOWN_MILLIS });
        }
        steps.push(StartupStep::Open { shard_id });
        shard_id = shard_id + 1;
    }
    steps
}

/// What the startup of a bot's shards needs: where to connect, how many
/// shards there are, the steps that bring them up, and what every shard
/// identifies itself with.
pub struct StartupPlan {
    /// The url under which every shard connects.
    pub gateway_url: url::Url,
    /// The number of shards.
    pub shard_amount: u32,
    /// The steps of the startup, in their order.
    pub steps: Vec<StartupStep>,
    /// The token of the bot, shared by all its shards.
    pub token: Arc<String>,
    /// The connection properties that every shard sends.
    pub connection_properties: IdentifyConnectionProperties,
    /// The bitmask of the intents that the bot asks for.
    pub intents: u32,
}

/// The Identify envelope of one shard.
pub open spec fn identify_of(
    token: Seq<char>,
    connection_properties: IdentifyConnectionPropertiesView,
    shard_id: u32,
    shard_total: u32,
    intents: u32,
) -> PayloadView<IdentifyView> {
    PayloadView {
        opcode: OPCODE_IDENTIFY,
        data: IdentifyView { token, connection_properties, shard_id, shard_total, intents },
        sequence_number: None,
        event_name: None,
    }
}

impl StartupPlan {
    /// Whether the plan is the one for a bot, the gateway's answer and the
    /// bot's connection properties, given the number of shards and the url
    /// that were made of them.
    pub open spec fn is_plan_for(
        self,
        bot: Bot,
        response: GetGatewayBotResponse,
        connection_properties: IdentifyConnectionProperties,
        shard_amount: u32,
        gateway_url: url::Url,
    ) -> bool {
        &&& self.gateway_url == gateway_url
        &&& self.shard_amount == shard_amount
        &&& self.steps@ == startup_steps(
            shard_amount as nat,
            response.session_start_limit.max_concurrency,
        )
        &&& self.token@ == bot.token@
        &&& self.connection_properties@ == connection_properties@
        &&& self.intents == bot.intents@
    }

    /// Makes the plan, once the number of shards and the url are known.
    pub fn assemble(
        bot: &Bot,
        response: &GetGatewayBotResponse,
        connection_properties: IdentifyConnectionProperties,
        shard_amount: u32,
        gateway_url: url::Url,
    ) -> (plan: Self)
        requires
            shard_amount > 0 ==> response.session_start_limit.max_concurrency > 0,
        ensures
            plan.is_plan_for(*bot, *response, connection_properties, shard_amount, gateway_url),
    {
        StartupPlan {
            gateway_url,
            shard_amount,
            steps: startup_schedule(shard_amount, response.session_start_limit.max_concurrency),
            token: bot.token.clone(),
            connection_properties,
            intents: bot.intents.bits(),
        }
    }

    /// The step that follows once `done` steps of the plan have been made,
    /// however they went: a shard that could not be opened is reported, and
    /// the shards after it are opened all the same. `None` once every step
    /// has been made.
    pub fn next_step(&self, done: usize) -> (next: Option<StartupStep>)
        ensures
            next == if done < self.steps@.len() {
                Some(self.steps@[done as int])
            } else {
                None
            },
    {
        if done < self.steps.len() {
            Some(self.steps[done])
        } else {
            None
        }
    }

    /// The Identify envelope with which a shard of the plan introduces
    /// itself.
    pub fn identify_payload(&self, shard_id: u32) -> (payload: Payload<Identify>)
        requires
            shard_id < self.shard_amount,
        ensures
            payload@ == identify_of(
                self.token@,
                self.connection_properties@,
                shard_id,
                self.shard_amount,
                self.intents,
            ),
    {
        let identify = Identify {
            token: self.token.clone(),
            connection_properties: IdentifyConnectionProperties {
                operating_system: self.connection_properties.operating_system.clone(),
                browser: self.connection_properties.browser.clone(),
                device: self.connection_properties.device.clone(),
            },
            shard: [shard_id, self.shard_amount],
            intents: self.intents,
        };
        Payload::new(OPCODE_IDENTIFY, identify)
    }
}

/// The registry of the shards that stand: the handle of each under its id.
pub struct ShardMap {
    shards: HashMap<u32, Gateway>,
}

impl View for ShardMap {
    type V = Map<u32, Gateway>;

    closed spec fn view(&self) -> Map<u32, Gateway> {
        self.shards@
    }
}

impl ShardMap {
    /// A registry without shards.
    pub fn new() -> (map: Self)
        ensures
            map@ == Map::<u32, Gateway>::empty(),
    {
        ShardMap { shards: HashMap::new() }
    }

    /// Registers the handle of a shard under its id. A shard is registered
    /// once: where the id had a handle already, the new one takes its place
    /// and the old one is handed back.
    pub fn add_shard_to_map(&mut self, shard_id: u32, gateway: Gateway) -> (replaced: Option<
        Gateway,
    >)
        ensures
            final(self)@ == old(self)@.insert(shard_id, gateway),
            replaced == if old(self)@.contains_key(shard_id) {
                Some(old(self)@[shard_id])
            } else {
                None
            },
    {
        self.shards.insert(shard_id, gateway)
    }

    /// The handle of a shard, if the shard is registered.
    pub fn get(&self, shard_id: u32) -> (gateway: Option<&Gateway>)
        ensures
            gateway == if self@.contains_key(shard_id) {
                Some(&self@[shard_id])
            } else {
                None
            },
    {
        self.shards.get(&shard_id)
    }

    /// Whether a shard is registered.
    pub fn contains(&self, shard_id: u32) -> (registered: bool)
        ensures
            registered == self@.contains_key(shard_id),
    {
        self.shards.contains_key(&shard_id)
    }

    /// The number of shards that are registered.
    pub fn len(&self) -> (amount: usize)
        ensures
            amount == self@.len(),
    {
        self.shards.len()
    }
}

/// The client that connects a bot to the gateway, shard by shard.
pub struct DiscordGatewayClient {
    /// The gateway connections that stand, each under the id of its shard.
    pub shards: ShardMap,
}

impl DiscordGatewayClient {
    /// What starting the shards of a bot comes to, given the url that the
    /// text of the connect url was read as: a zero amount of shards is
    /// refused before anything else, then a text that is no url.
    pub open spec fn startup_of(
        bot: Bot,
        response: GetGatewayBotResponse,
        gateway_url: Option<url::Url>,
    ) -> Result<(u32, url::Url), ConfigError> {
        match shard_amount_of(bot.sharding_option, response.shards) {
            Err(error) => Err(error),
            Ok(shard_amount) => match gateway_url {
                None => Err(ConfigError::InvalidGatewayUrl),
                Some(url) => Ok((shard_amount, url)),
            },
        }
    }

    /// Whether the session start limit of the gateway's answer can be used
    /// for the shards of a bot: where there is a shard to open, a bucket
    /// holds at least one.
    pub open spec fn can_start(bot: Bot, response: GetGatewayBotResponse) -> bool {
        shard_amount_of(bot.sharding_option, response.shards) matches Ok(shard_amount)
            && shard_amount > 0 ==> response.session_start_limit.max_concurrency > 0
    }

    /// Sets the startup of a bot's shards up from the gateway's answer: a
    /// client without shards yet, and the plan by which they are opened. No
    /// connection is attempted here, and none is planned where this fails.
    pub fn new_with_shards(
        bot: &Bot,
        gateway_bot_response: &GetGatewayBotResponse,
        connection_properties: IdentifyConnectionProperties,
    ) -> (res: Result<(Self, StartupPlan), ConfigError>)
        requires
            Self::can_start(*bot, *gateway_bot_response),
        ensures
            match Self::startup_of(
                *bot,
                *gateway_bot_response,
                url_parsed(connect_url_text(gateway_bot_response.url@, DISCORD_API_VERSION)),
            ) {
                Ok((shard_amount, gateway_url)) => res matches Ok((client, plan))
                    && client.shards@ == Map::<u32, Gateway>::empty() && plan.is_plan_for(
                    *bot,
                    *gateway_bot_response,
                    connection_properties,
                    shard_amount,
                    gateway_url,
                ),
                Err(error) => res matches Err(refused) && refused == error,
            },
            bot.sharding_option == ShardingOption::SetAmount(0) ==> (res matches Err(refused)
                && refused == ConfigError::InvalidShardCount),
    {
        let shard_amount = match resolve_shard_amount(
            bot.sharding_option,
            gateway_bot_response.shards,
        ) {
            Ok(shard_amount) => shard_amount,
            Err(error) => return Err(error),
        };
        let text = gateway_connect_url(gateway_bot_response.url.as_str(), DISCORD_API_VERSION);
        let gateway_url = match parse_url(text.as_str()) {
            Ok(gateway_url) => gateway_url,
            Err(_) => return Err(ConfigError::InvalidGatewayUrl),
        };
        let plan = StartupPlan::assemble(
            bot,
            gateway_bot_response,
            connection_properties,
            shard_amount,
            gateway_url,
        );
        Ok((DiscordGatewayClient { shards: ShardMap::new() }, plan))
    }
}

/// How far the handshake of a shard has come.
#[derive(Debug, Clone, Copy, PartialEq, Eq, Structural)]
pub enum HandshakeState {
    /// The connection is being opened.
    Connecting,
    /// The connection stands; the gateway's Hello is awaited.
    AwaitHello,
    /// The Hello has come; the Identify command is on its way to the queue.
    Identifying,
    /// The shard is up.
    Active,
    /// The handshake has failed.
    Failed(GatewayError),
}

/// What the handshake learns from outside.
#[derive(Debug, Clone, PartialEq, Eq)]
pub enum HandshakeEvent {
    /// The connection has been opened.
    Connected,
    /// The connection could not be opened.
    ConnectFailed,
    /// The read half of the connection has yielded something.
    Received(Inbound),
    /// The command queue has taken the Identify command.
    Queued,
    /// The command queue is closed.
    QueueClosed,
}

/// A [`HandshakeEvent`] as a mathematical value.
pub enum HandshakeEventView {
    Connected,
    ConnectFailed,
    Received(InboundView),
    Queued,
    QueueClosed,
}

impl View for HandshakeEvent {
    type V = HandshakeEventView;

    open spec fn view(&self) -> HandshakeEventView {
        match *self {
            HandshakeEvent::Connected => HandshakeEventView::Connected,
            HandshakeEvent::ConnectFailed => HandshakeEventView::ConnectFailed,
            HandshakeEvent::Received(inbound) => HandshakeEventView::Received(inbound@),
            HandshakeEvent::Queued => HandshakeEventView::Queued,
            HandshakeEvent::QueueClosed => HandshakeEventView::QueueClosed,
        }
    }
}

/// What is to be done next for the handshake.
pub enum HandshakeAction {
    /// Read the first frame, and report what came.
    ReadFrame,
    /// Put the command on the shard's command queue, of which `queue` is a
    /// producer, and report how that went.
    Enqueue { command: GatewayCommand, queue: tokio::sync::mpsc::Sender<GatewayCommand> },
    /// Start the three loops of the shard, which consume `commands`, and
    /// register its handle.
    Activate { gateway: Gateway, commands: tokio::sync::mpsc::Receiver<GatewayCommand> },
    /// Give the shard up, and report the failure. The other shards go on.
    Abort(GatewayError),
}

/// The identity of a connection without the cell that holds its sequence
/// number.
pub struct ConnectionIdentity {
    pub shard_id: u32,
    pub shard_total: u32,
    pub heartbeat_interval: u32,
}

/// The identity that a connection identifier stands for.
pub open spec fn identity_of(identifier: GatewayConnectionIdentifier) -> ConnectionIdentity {
    ConnectionIdentity {
        shard_id: identifier.shard_id,
        shard_total: identifier.shard_total,
        heartbeat_interval: identifier.heartbeat_interval,
    }
}

/// A [`HandshakeAction`] as a mathematical value.
pub enum HandshakeActionView {
    ReadFrame,
    Enqueue(GatewayCommandView),
    Activate(ConnectionIdentity),
    Abort(GatewayError),
}

impl View for HandshakeAction {
    type V = HandshakeActionView;

    open spec fn view(&self) -> HandshakeActionView {
        match *self {
            HandshakeAction::ReadFrame => HandshakeActionView::ReadFrame,
            HandshakeAction::Enqueue { command, .. } => HandshakeActionView::Enqueue(command@),
            HandshakeAction::Activate { gateway, .. } => HandshakeActionView::Activate(
                identity_of(gateway.connection_id),
            ),
            HandshakeAction::Abort(error) => HandshakeActionView::Abort(error),
        }
    }
}

/// The handshake of a shard as a mathematical value: its state, with the
/// Identify envelope as long as it has not been sent and the identity once
/// the Hello has come.
pub enum HandshakeView {
    Connecting { identify: PayloadView<IdentifyView> },
    AwaitHello { identify: PayloadView<IdentifyView> },
    Identifying { identity: ConnectionIdentity },
    Active,
    Failed(GatewayError),
}

enum Stage {
    Connecting { identify: Payload<Identify> },
    AwaitHello { identify: Payload<Identify> },
    Identifying { gateway: Gateway, commands: tokio::sync::mpsc::Receiver<GatewayCommand> },
    Active,
    Failed(GatewayError),
}

/// The handshake of one shard, from the opening of its connection to the
/// start of its loops.
pub struct Handshake {
    stage: Stage,
}

impl View for Handshake {
    type V = HandshakeView;

    closed spec fn view(&self) -> HandshakeView {
        match self.stage {
            Stage::Connecting { identify } => HandshakeView::Connecting { identify: identify@ },
            Stage::AwaitHello { identify } => HandshakeView::AwaitHello { identify: identify@ },
            Stage::Identifying { gateway, .. } => HandshakeView::Identifying {
                identity: identity_of(gateway.connection_id),
            },
            Stage::Active => HandshakeView::Active,
            Stage::Failed(error) => HandshakeView::Failed(error),
        }
    }
}

/// What a failure does to the handshake: it ends it, and is reported.
pub open spec fn handshake_failed(error: GatewayError) -> (HandshakeView, HandshakeActionView) {
    (HandshakeView::Failed(error), HandshakeActionView::Abort(error))
}

/// The handshake, once the first frame has been read as an envelope with the
/// data of a Hello or not. The envelope is the Hello only if its opcode is
/// that of the Hello. With the Hello, the shard has its identity, made of the
/// shard pair it identifies with and of the heartbeat interval of the Hello,
/// and the Identify command is the first to go on the queue that is made for
/// it. With any other first frame, the handshake has failed.
pub open spec fn handshake_hello(
    identify: PayloadView<IdentifyView>,
    hello: Result<PayloadView<Hello>, CodecError>,
) -> (HandshakeView, HandshakeActionView) {
    match hello {
        Ok(envelope) => if envelope.opcode == OPCODE_HELLO {
            (
                HandshakeView::Identifying {
                    identity: ConnectionIdentity {
                        shard_id: identify.data.shard_id,
                        shard_total: identify.data.shard_total,
                        heartbeat_interval: envelope.data.heartbeat_interval,
                    },
                },
                HandshakeActionView::Enqueue(GatewayCommandView::Identify(identify)),
            )
        } else {
            handshake_failed(
                GatewayError::Handshake(HandshakeError::NotHello(CodecError::Unexpected)),
            )
        },
        Err(error) => handshake_failed(GatewayError::Handshake(HandshakeError::NotHello(error))),
    }
}

/// The handshake: connect, await the Hello, identify, start. A connection
/// that cannot be opened, a first frame that is no Hello, a connection that
/// ends before a frame has come, and a closed command queue each end it
/// with their failure. So does an event that the handshake was not waiting
/// for. A handshake that has failed stays failed.
pub open spec fn handshake_next(state: HandshakeView, event: HandshakeEventView) -> (
    HandshakeView,
    HandshakeActionView,
) {
    match (state, event) {
        (HandshakeView::Failed(error), _) => handshake_failed(error),
        (HandshakeView::Connecting { identify }, HandshakeEventView::Connected) => (
            HandshakeView::AwaitHello { identify },
            HandshakeActionView::ReadFrame,
        ),
        (HandshakeView::Connecting { .. }, HandshakeEventView::ConnectFailed) => handshake_failed(
            GatewayError::Connect,
        ),
        (
            HandshakeView::AwaitHello { identify },
            HandshakeEventView::Received(InboundView::Frame(text)),
        ) => handshake_hello(identify, Payload::<Hello>::deserialized(text)),
        (HandshakeView::AwaitHello { .. }, HandshakeEventView::Received(_)) => handshake_failed(
            GatewayError::Handshake(HandshakeError::Closed),
        ),
        (HandshakeView::Identifying { identity }, HandshakeEventView::Queued) => (
            HandshakeView::Active,
            HandshakeActionView::Activate(identity),
        ),
        (HandshakeView::Identifying { .. }, HandshakeEventView::QueueClosed) => handshake_failed(
            GatewayError::ChannelClosed,
        ),
        _ => handshake_failed(GatewayError::Handshake(HandshakeError::OutOfOrder)),
    }
}

impl Handshake {
    #[verifier::type_invariant]
    spec fn shard_is_one_of_the_shards(self) -> bool {
        match self.stage {
            Stage::Connecting { identify } => identify.data.shard@[0] < identify.data.shard@[1],
            Stage::AwaitHello { identify } => identify.data.shard@[0] < identify.data.shard@[1],
            Stage::Identifying { gateway, .. } => gateway.connection_id.well_formed(),
            _ => true,
        }
    }

    /// Whether the shard that an Identify envelope names is one of the
    /// shards that it counts.
    pub open spec fn names_a_shard(identify: PayloadView<IdentifyView>) -> bool {
        identify.data.shard_id < identify.data.shard_total
    }

    /// The handshake of the shard that an Identify envelope names, before
    /// its connection is opened; `None` where the envelope names no shard.
    pub fn new(identify: Payload<Identify>) -> (handshake: Option<Self>)
        ensures
            match handshake {
                Some(handshake) => Self::names_a_shard(identify@) && handshake@
                    == (HandshakeView::Connecting { identify: identify@ }),
                None => !Self::names_a_shard(identify@),
            },
    {
        if identify.data.shard[0] < identify.data.shard[1] {
            Some(Handshake { stage: Stage::Connecting { identify } })
        } else {
            None
        }
    }

    /// How far the handshake has come.
    pub fn state(&self) -> (state: HandshakeState)
        ensures
            state == match self@ {
                HandshakeView::Connecting { .. } => HandshakeState::Connecting,
                HandshakeView::AwaitHello { .. } => HandshakeState::AwaitHello,
                HandshakeView::Identifying { .. } => HandshakeState::Identifying,
                HandshakeView::Active => HandshakeState::Active,
                HandshakeView::Failed(error) => HandshakeState::Failed(error),
            },
    {
        match &self.stage {
            Stage::Connecting { .. } => HandshakeState::Connecting,
            Stage::AwaitHello { .. } => HandshakeState::AwaitHello,
            Stage::Identifying { .. } => HandshakeState::Identifying,
            Stage::Active => HandshakeState::Active,
            Stage::Failed(error) => HandshakeState::Failed(*error),
        }
    }

    fn fail(error: GatewayError) -> (res: (Self, HandshakeAction))
        ensures
            res.0@ == handshake_failed(error).0,
            res.1@ == handshake_failed(error).1,
    {
        (Handshake { stage: Stage::Failed(error) }, HandshakeAction::Abort(error))
    }

    /// One step of the handshake while the Hello is awaited, on a first
    /// frame that has been read as a Hello envelope or not.
    pub fn on_hello(self, hello: Result<Payload<Hello>, CodecError>) -> (res: (
        Self,
        HandshakeAction,
    ))
        ensures
            match self@ {
                HandshakeView::AwaitHello { identify } => {
                    &&& res.0@ == handshake_hello(
                        identify,
                        match hello {
                            Ok(envelope) => Ok(envelope@),
                            Err(error) => Err(error),
                        },
                    ).0
                    &&& res.1@ == handshake_hello(
                        identify,
                        match hello {
                            Ok(envelope) => Ok(envelope@),
                            Err(error) => Err(error),
                        },
                    ).1
                },
                HandshakeView::Failed(error) => {
                    &&& res.0@ == handshake_failed(error).0
                    &&& res.1@ == handshake_failed(error).1
                },
                _ => {
                    &&& res.0@ == handshake_failed(
                        GatewayError::Handshake(HandshakeError::OutOfOrder),
                    ).0
                    &&& res.1@ == handshake_failed(
                        GatewayError::Handshake(HandshakeError::OutOfOrder),
                    ).1
                },
            },
    {
        proof {
            use_type_invariant(&self);
        }
        match self.stage {
            Stage::AwaitHello { identify } => match hello {
                Ok(envelope) => if envelope.opcode != OPCODE_HELLO {
                    Self::fail(
                        GatewayError::Handshake(HandshakeError::NotHello(CodecError::Unexpected)),
                    )
                } else {
                    let connection_id = GatewayConnectionIdentifier::new(
                        identify.data.shard[0],
                        identify.data.shard[1],
                        envelope.data.heartbeat_interval,
                    );
                    let (gateway, commands) = Gateway::open(connection_id);
                    let queue = gateway.gateway_sink_sender.clone();
                    (
                        Handshake { stage: Stage::Identifying { gateway, commands } },
                        HandshakeAction::Enqueue {
                            command: GatewayCommand::Identify(identify),
                            queue,
                        },
                    )
                },
                Err(error) => Self::fail(
                    GatewayError::Handshake(HandshakeError::NotHello(error)),
                ),
            },
            Stage::Failed(error) => Self::fail(error),
            _ => Self::fail(GatewayError::Handshake(HandshakeError::OutOfOrder)),
        }
    }

    /// One step of the handshake.
    pub fn step(self, event: HandshakeEvent) -> (res: (Self, HandshakeAction))
        ensures
            res.0@ == handshake_next(self@, event@).0,
            res.1@ == handshake_next(self@, event@).1,
    {
        proof {
            use_type_invariant(&self);
        }
        match (self.stage, event) {
            (Stage::Failed(error), _) => Self::fail(error),
            (Stage::Connecting { identify }, HandshakeEvent::Connected) => (
                Handshake { stage: Stage::AwaitHello { identify } },
                HandshakeAction::ReadFrame,
            ),
            (Stage::Connecting { .. }, HandshakeEvent::ConnectFailed) => Self::fail(
                GatewayError::Connect,
            ),
            (Stage::AwaitHello { identify }, HandshakeEvent::Received(Inbound::Frame(text))) => {
                let waiting = Handshake { stage: Stage::AwaitHello { identify } };
                waiting.on_hello(Payload::<Hello>::deserialize(text.as_str()))
            },
            (Stage::AwaitHello { .. }, HandshakeEvent::Received(_)) => Self::fail(
                GatewayError::Handshake(HandshakeError::Closed),
            ),
            (Stage::Identifying { gateway, commands }, HandshakeEvent::Queued) => (
                Handshake { stage: Stage::Active },
                HandshakeAction::Activate { gateway, commands },
            ),
            (Stage::Identifying { .. }, HandshakeEvent::QueueClosed) => Self::fail(
                GatewayError::ChannelClosed,
            ),
            _ => Self::fail(GatewayError::Handshake(HandshakeError::OutOfOrder)),
        }
    }
}

/// Whether the command dispatcher of a shard still writes.
#[derive(Debug, Clone, Copy, PartialEq, Eq, Structural)]
pub enum DispatcherState {
    /// Commands are written as they come.
    Running,
    /// A write has failed: the connection is dead, and no command can be
    /// sent any more.
    Dead,
}

/// What the dispatcher makes of a command: while it runs, the frame of the
/// command, whole and for this command alone; once it is dead, the refusal
/// of a closed channel.
pub open spec fn dispatched(state: DispatcherState, command: GatewayCommandView) -> Result<
    Seq<char>,
    GatewayError,
> {
    match state {
        DispatcherState::Running => Ok(GatewayCommand::frame(command)),
        DispatcherState::Dead => Err(GatewayError::ChannelClosed),
    }
}

/// The text of a frame, or the failure that stands in its place.
pub open spec fn outcome_view(outcome: Result<String, GatewayError>) -> Result<
    Seq<char>,
    GatewayError,
> {
    match outcome {
        Ok(frame) => Ok(frame@),
        Err(error) => Err(error),
    }
}

/// Turns one command of the queue into the frame to write. A running
/// dispatcher owes a frame for every command.
pub fn dispatch(state: DispatcherState, command: &GatewayCommand) -> (outcome: Result<
    String,
    GatewayError,
>)
    ensures
        outcome_view(outcome) == dispatched(state, command@),
        state == DispatcherState::Running ==> outcome is Ok,
        state == DispatcherState::Dead ==> outcome is Err,
        state == DispatcherState::Running ==> GatewayCommand::is_frame(
            command@,
            GatewayCommand::frame(command@),
        ),
{
    match state {
        DispatcherState::Dead => Err(GatewayError::ChannelClosed),
        DispatcherState::Running => match command.serialize_to_message() {
            Ok(frame) => Ok(frame),
            Err(error) => Err(GatewayError::Codec(error)),
        },
    }
}

/// What a failed write does to the dispatcher: the shard is dead, and the
/// failure is reported.
pub fn write_failed(state: DispatcherState) -> (res: (DispatcherState, GatewayError))
    ensures
        res.0 == DispatcherState::Dead,
        res.1 == GatewayError::ChannelClosed,
{
    (DispatcherState::Dead, GatewayError::ChannelClosed)
}

/// Turns the commands of the queue into the frames to write, one whole frame
/// for each command and in the order of the queue: while the dispatcher
/// runs, no command is lost and none is answered twice.
pub fn process_gateway_send_commands(state: DispatcherState, commands: &Vec<GatewayCommand>) -> (frames:
    Vec<Result<String, GatewayError>>)
    ensures
        frames@.len() == commands@.len(),
        forall|i: int|
            0 <= i < commands@.len() ==> outcome_view(#[trigger] frames@[i]) == dispatched(
                state,
                commands@[i]@,
            ),
        state == DispatcherState::Running ==> forall|i: int|
            0 <= i < commands@.len() ==> (#[trigger] frames@[i]) is Ok,
{
    let mut frames: Vec<Result<String, GatewayError>> = Vec::new();
    let mut index: usize = 0;
    while index < commands.len()
        invariant
            index <= commands@.len(),
            frames@.len() == index,
            forall|i: int|
                0 <= i < index ==> outcome_view(#[trigger] frames@[i]) == dispatched(
                    state,
                    commands@[i]@,
                ),
            state == DispatcherState::Running ==> forall|i: int|
                0 <= i < index ==> (#[trigger] frames@[i]) is Ok,
        decreases commands@.len() - index,
    {
        let outcome = dispatch(state, &commands[index]);
        frames.push(outcome);
        index = index + 1;
    }
    frames
}

} // verus!
