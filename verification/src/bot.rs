//! The bot: its token, the gateway events it asks for, and how it is sharded.
use std::sync::Arc;
use vstd::prelude::*;

verus! {

/// The bits of every intent together.
pub const ALL_INTENT_BITS: u32 = 0x0031_ffff;

/// The bits of the privileged intents together.
pub const PRIVILEGED_INTENT_BITS: u32 = 0x0000_8102;

/// A category of gateway events that a bot can ask to receive.
#[derive(Debug, Clone, Copy, PartialEq, Eq, Structural)]
pub enum Intent {
    Guilds,
    /// Privileged.
    GuildMembers,
    GuildBans,
    GuildEmojisAndStickers,
    GuildIntegrations,
    GuildWebhooks,
    GuildInvites,
    GuildVoiceStates,
    /// Privileged.
    GuildPresences,
    GuildMessages,
    GuildMessageReactions,
    GuildMessageTyping,
    DirectMessages,
    DirectMessageReactions,
    DirectMessageTyping,
    /// Privileged.
    MessageContent,
    GuildScheduledEvents,
    AutoModerationConfiguration,
    AutoModerationExecution,
}

impl Intent {
    /// The position of the intent's bit in the bitmask of the Identify payload.
    pub open spec fn position(self) -> u32 {
        match self {
            Intent::Guilds => 0,
            Intent::GuildMembers => 1,
            Intent::GuildBans => 2,
            Intent::GuildEmojisAndStickers => 3,
            Intent::GuildIntegrations => 4,
            Intent::GuildWebhooks => 5,
            Intent::GuildInvites => 6,
            Intent::GuildVoiceStates => 7,
            Intent::GuildPresences => 8,
            Intent::GuildMessages => 9,
            Intent::GuildMessageReactions => 10,
            Intent::GuildMessageTyping => 11,
            Intent::DirectMessages => 12,
            Intent::DirectMessageReactions => 13,
            Intent::DirectMessageTyping => 14,
            Intent::MessageContent => 15,
            Intent::GuildScheduledEvents => 16,
            Intent::AutoModerationConfiguration => 20,
            Intent::AutoModerationExecution => 21,
        }
    }

    /// Whether the intent has to be switched on for the bot out of band.
    pub open spec fn privileged(self) -> bool {
        self == Intent::GuildMembers || self == Intent::GuildPresences || self
            == Intent::MessageContent
    }

    /// The intent's bit.
    pub fn mask(self) -> (mask: u32)
        ensures
            mask == 1u32 << self.position(),
            mask & ALL_INTENT_BITS == mask,
            mask != 0,
            self.privileged() <==> mask & PRIVILEGED_INTENT_BITS != 0,
    {
        let position: u32 = match self {
            Intent::Guilds => 0,
            Intent::GuildMembers => 1,
            Intent::GuildBans => 2,
            Intent::GuildEmojisAndStickers => 3,
            Intent::GuildIntegrations => 4,
            Intent::GuildWebhooks => 5,
            Intent::GuildInvites => 6,
            Intent::GuildVoiceStates => 7,
            Intent::GuildPresences => 8,
            Intent::GuildMessages => 9,
            Intent::GuildMessageReactions => 10,
            Intent::GuildMessageTyping => 11,
            Intent::DirectMessages => 12,
            Intent::DirectMessageReactions => 13,
            Intent::DirectMessageTyping => 14,
            Intent::MessageContent => 15,
            Intent::GuildScheduledEvents => 16,
            Intent::AutoModerationConfiguration => 20,
            Intent::AutoModerationExecution => 21,
        };
        let mask = 1u32 << position;
        assert(position <= 16 || position == 20 || position == 21);
        assert({
            &&& mask & 0x0031_ffff == mask
            &&& mask != 0
            &&& (position == 1 || position == 8 || position == 15) <==> mask & 0x0000_8102 != 0
        }) by (bit_vector)
            requires
                mask == 1u32 << position,
                position <= 16 || position == 20 || position == 21,
        ;
        mask
    }

    /// Whether the intent has to be switched on for the bot out of band.
    pub fn is_privileged(self) -> (privileged: bool)
        ensures
            privileged == self.privileged(),
    {
        match self {
            Intent::GuildMembers | Intent::GuildPresences | Intent::MessageContent => true,
            _ => false,
        }
    }
}

/// A set of intents, held as the bitmask that the Identify payload carries.
#[derive(Debug, Clone, Copy, PartialEq, Eq, Structural)]
pub struct Intents {
    bits: u32,
}

impl View for Intents {
    type V = u32;

    closed spec fn view(&self) -> u32 {
        self.bits
    }
}

impl Intents {
    #[verifier::type_invariant]
    spec fn only_known_bits(self) -> bool {
        self.bits & ALL_INTENT_BITS == self.bits
    }

    /// Whether the set holds an intent.
    pub open spec fn has(self, intent: Intent) -> bool {
        self@ & (1u32 << intent.position()) != 0
    }

    /// The set without any intent.
    pub fn empty() -> (intents: Self)
        ensures
            intents@ == 0,
            forall|intent: Intent| !#[trigger] intents.has(intent),
    {
        assert(0u32 & 0x0031_ffff == 0u32) by (bit_vector);
        let intents = Intents { bits: 0 };
        assert forall|intent: Intent| !#[trigger] intents.has(intent) by {
            let p = intent.position();
            assert(0u32 & (1u32 << p) == 0) by (bit_vector);
        }
        intents
    }

    /// The set of every intent.
    pub fn all() -> (intents: Self)
        ensures
            intents@ == ALL_INTENT_BITS,
            forall|intent: Intent| #[trigger] intents.has(intent),
    {
        assert(0x0031_ffffu32 & 0x0031_ffff == 0x0031_ffffu32) by (bit_vector);
        let intents = Intents { bits: ALL_INTENT_BITS };
        assert forall|intent: Intent| #[trigger] intents.has(intent) by {
            let p = intent.position();
            assert(0x0031_ffffu32 & (1u32 << p) != 0) by (bit_vector)
                requires
                    p <= 16 || p == 20 || p == 21,
            ;
        }
        intents
    }

    /// The set of one intent.
    pub fn single(intent: Intent) -> (intents: Self)
        ensures
            intents@ == 1u32 << intent.position(),
            forall|other: Intent| #[trigger] intents.has(other) <==> other == intent,
    {
        let intents = Intents { bits: intent.mask() };
        assert forall|other: Intent| #[trigger] intents.has(other) <==> other == intent by {
            let p = intent.position();
            let q = other.position();
            assert(((1u32 << p) & (1u32 << q) != 0) == (p == q)) by (bit_vector)
                requires
                    p < 32,
                    q < 32,
            ;
        }
        intents
    }

    /// The set whose bitmask is `bits`, without the bits that name no intent.
    pub fn from_bits_truncate(bits: u32) -> (intents: Self)
        ensures
            intents@ == bits & ALL_INTENT_BITS,
    {
        assert((bits & 0x0031_ffff) & 0x0031_ffff == bits & 0x0031_ffff) by (bit_vector);
        Intents { bits: bits & ALL_INTENT_BITS }
    }

    /// The bitmask, as the Identify payload carries it.
    pub fn bits(&self) -> (bits: u32)
        ensures
            bits == self@,
            bits & ALL_INTENT_BITS == bits,
    {
        proof {
            use_type_invariant(self);
        }
        self.bits
    }

    /// Whether the set is empty.
    pub fn is_empty(&self) -> (empty: bool)
        ensures
            empty == (self@ == 0),
    {
        self.bits == 0
    }

    /// Whether every intent of `other` is in this set.
    pub fn contains(&self, other: Intents) -> (contained: bool)
        ensures
            contained == (self@ & other@ == other@),
    {
        self.bits & other.bits == other.bits
    }

    /// Whether the set holds an intent.
    pub fn contains_intent(&self, intent: Intent) -> (held: bool)
        ensures
            held == self.has(intent),
    {
        self.bits & intent.mask() != 0
    }

    /// The intents that are in this set or in `other`.
    pub fn union(self, other: Intents) -> (intents: Self)
        ensures
            intents@ == self@ | other@,
            forall|intent: Intent|
                #[trigger] intents.has(intent) <==> (self.has(intent) || other.has(intent)),
    {
        proof {
            use_type_invariant(self);
            use_type_invariant(other);
        }
        let a = self.bits;
        let b = other.bits;
        assert((a | b) & 0x0031_ffff == a | b) by (bit_vector)
            requires
                a & 0x0031_ffff == a,
                b & 0x0031_ffff == b,
        ;
        let intents = Intents { bits: a | b };
        assert forall|intent: Intent|
            #[trigger] intents.has(intent) <==> (self.has(intent) || other.has(intent)) by {
            let m = 1u32 << intent.position();
            assert(((a | b) & m != 0) == (a & m != 0 || b & m != 0)) by (bit_vector);
        }
        intents
    }

    /// The intents that are in this set and in `other`.
    pub fn intersection(self, other: Intents) -> (intents: Self)
        ensures
            intents@ == self@ & other@,
            forall|intent: Intent|
                #[trigger] intents.has(intent) <==> (self.has(intent) && other.has(intent)),
    {
        proof {
            use_type_invariant(self);
        }
        let a = self.bits;
        let b = other.bits;
        assert((a & b) & 0x0031_ffff == a & b) by (bit_vector)
            requires
                a & 0x0031_ffff == a,
        ;
        let intents = Intents { bits: a & b };
        assert forall|intent: Intent|
            #[trigger] intents.has(intent) <==> (self.has(intent) && other.has(intent)) by {
            let p = intent.position();
            assert(((a & b) & (1u32 << p) != 0) == (a & (1u32 << p) != 0 && b & (1u32 << p) != 0))
                by (bit_vector)
                requires
                    p < 32,
            ;
        }
        intents
    }

    /// The intents of this set that are not in `other`.
    pub fn difference(self, other: Intents) -> (intents: Self)
        ensures
            intents@ == self@ & !other@,
            forall|intent: Intent|
                #[trigger] intents.has(intent) <==> (self.has(intent) && !other.has(intent)),
    {
        proof {
            use_type_invariant(self);
        }
        let a = self.bits;
        let b = other.bits;
        assert((a & !b) & 0x0031_ffff == a & !b) by (bit_vector)
            requires
                a & 0x0031_ffff == a,
        ;
        let intents = Intents { bits: a & !b };
        assert forall|intent: Intent|
            #[trigger] intents.has(intent) <==> (self.has(intent) && !other.has(intent)) by {
            let p = intent.position();
            assert(((a & !b) & (1u32 << p) != 0) == (a & (1u32 << p) != 0 && b & (1u32 << p)
                == 0)) by (bit_vector)
                requires
                    p < 32,
            ;
        }
        intents
    }

    /// Puts the intents of `other` into the set where `value` is true, and
    /// takes them out where it is false.
    pub fn set(&mut self, other: Intents, value: bool)
        ensures
            final(self)@ == if value {
                old(self)@ | other@
            } else {
                old(self)@ & !other@
            },
    {
        if value {
            *self = self.union(other);
        } else {
            *self = self.difference(other);
        }
    }

    /// The intents of the set that have to be switched on out of band.
    pub fn privileged(self) -> (intents: Self)
        ensures
            intents@ == self@ & PRIVILEGED_INTENT_BITS,
            forall|intent: Intent|
                #[trigger] intents.has(intent) <==> (self.has(intent) && intent.privileged()),
    {
        proof {
            use_type_invariant(self);
        }
        let a = self.bits;
        assert((a & 0x0000_8102) & 0x0031_ffff == a & 0x0000_8102) by (bit_vector);
        let intents = Intents { bits: a & PRIVILEGED_INTENT_BITS };
        assert forall|intent: Intent|
            #[trigger] intents.has(intent) <==> (self.has(intent) && intent.privileged()) by {
            let p = intent.position();
            assert(intent.privileged() == (p == 1 || p == 8 || p == 15));
            assert(((a & 0x0000_8102) & (1u32 << p) != 0) == (a & (1u32 << p) != 0 && (p == 1 || p
                == 8 || p == 15))) by (bit_vector)
                requires
                    p < 32,
            ;
        }
        intents
    }
}

/// How many shards a bot runs.
#[derive(Debug, Clone, Copy, PartialEq, Eq, Structural)]
pub enum ShardingOption {
    /// As many shards as the gateway recommends.
    Automatic,
    /// A set amount of shards, which must not be zero.
    SetAmount(u32),
}

/// A bot: what the library needs to know to bring it online.
pub struct Bot {
    /// The token with which the bot connects to the Discord api.
    pub token: Arc<String>,
    /// The gateway events that the bot asks for. Some intents are privileged
    /// and have to be switched on in the developer page.
    pub intents: Intents,
    /// Whether the gateway's recommendation or a set amount decides the
    /// number of shards.
    pub sharding_option: ShardingOption,
}

impl Bot {
    /// Creates a bot with a token, no intents and automatic sharding.
    pub fn new(token: String) -> (bot: Self)
        ensures
            bot.token@ == token@,
            bot.intents@ == 0,
            bot.sharding_option == ShardingOption::Automatic,
    {
        Self {
            token: Arc::new(token),
            intents: Intents::empty(),
            sharding_option: ShardingOption::Automatic,
        }
    }

    /// Adds intents to those of the bot.
    pub fn union_intents(&mut self, intents: Intents)
        ensures
            final(self).intents@ == old(self).intents@ | intents@,
            final(self).token == old(self).token,
            final(self).sharding_option == old(self).sharding_option,
    {
        self.intents = self.intents.union(intents);
    }

    /// Keeps those intents of the bot that are also in `intents`.
    pub fn intersection_intents(&mut self, intents: Intents)
        ensures
            final(self).intents@ == old(self).intents@ & intents@,
            final(self).token == old(self).token,
            final(self).sharding_option == old(self).sharding_option,
    {
        self.intents = self.intents.intersection(intents);
    }

    /// Switches intents of the bot on, where `value` is true, or off.
    pub fn set_intents(&mut self, intents: Intents, value: bool)
        ensures
            final(self).intents@ == if value {
                old(self).intents@ | intents@
            } else {
                old(self).intents@ & !intents@
            },
            final(self).token == old(self).token,
            final(self).sharding_option == old(self).sharding_option,
    {
        let mut updated = self.intents;
        updated.set(intents, value);
        self.intents = updated;
    }
}

} // verus!
