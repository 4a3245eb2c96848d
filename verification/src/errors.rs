//! What can go wrong, and the texts that say so.
use vstd::prelude::*;

verus! {

/// A fault of the transport between the bot and a connector. Each carries the name that the
/// transport gives to the fault.
#[derive(Debug)]
pub enum PubSubError {
    SubscriberReceive(String),
    PublisherLoan(String),
    PublisherSend(String),
    Decode(String),
    Encode(String),
}

impl PubSubError {
    /// The transport's name for the fault.
    pub open spec fn fault(self) -> Seq<char> {
        match self {
            PubSubError::SubscriberReceive(fault) => fault@,
            PubSubError::PublisherLoan(fault) => fault@,
            PubSubError::PublisherSend(fault) => fault@,
            PubSubError::Decode(fault) => fault@,
            PubSubError::Encode(fault) => fault@,
        }
    }

    /// The name of the variant.
    pub open spec fn kind(self) -> Seq<char> {
        match self {
            PubSubError::SubscriberReceive(_) => "SubscriberReceive"@,
            PubSubError::PublisherLoan(_) => "PublisherLoan"@,
            PubSubError::PublisherSend(_) => "PublisherSend"@,
            PubSubError::Decode(_) => "Decode"@,
            PubSubError::Encode(_) => "Encode"@,
        }
    }

    /// The text of the error: the name of the fault.
    pub fn message(&self) -> (r: String)
        ensures
            r@ == self.fault(),
    {
        match self {
            PubSubError::SubscriberReceive(fault) => fault.clone(),
            PubSubError::PublisherLoan(fault) => fault.clone(),
            PubSubError::PublisherSend(fault) => fault.clone(),
            PubSubError::Decode(fault) => fault.clone(),
            PubSubError::Encode(fault) => fault.clone(),
        }
    }

    /// The variant, with the name of the fault in brackets.
    pub fn describe(&self) -> (r: String)
        ensures
            r@ == self.kind() + "("@ + self.fault() + ")"@,
    {
        let kind = match self {
            PubSubError::SubscriberReceive(_) => "SubscriberReceive",
            PubSubError::PublisherLoan(_) => "PublisherLoan",
            PubSubError::PublisherSend(_) => "PublisherSend",
            PubSubError::Decode(_) => "Decode",
            PubSubError::Encode(_) => "Encode",
        };
        kind.to_string().concat("(").concat(self.message().as_str()).concat(")")
    }
}

/// Why the bot could not do what was asked.
#[derive(Debug)]
pub enum BotError {
    OrderIdExist,
    AssetNotFound,
    OrderNotFound,
    InvalidOrderStatus,
    /// The current time cannot be counted in nanoseconds.
    ClockOutOfRange,
    Custom(String),
    PubSub(PubSubError),
}

impl BotError {
    /// The text of the error.
    pub open spec fn text(self) -> Seq<char> {
        match self {
            BotError::OrderIdExist => "order id already exists"@,
            BotError::AssetNotFound => "asset not found"@,
            BotError::OrderNotFound => "order not found"@,
            BotError::InvalidOrderStatus => "order status is invalid"@,
            BotError::ClockOutOfRange => "current time is out of range"@,
            BotError::Custom(message) => message@,
            BotError::PubSub(error) => error.kind() + "("@ + error.fault() + ")"@,
        }
    }

    /// The text of the error.
    pub fn message(&self) -> (r: String)
        ensures
            r@ == self.text(),
    {
        match self {
            BotError::OrderIdExist => "order id already exists".to_string(),
            BotError::AssetNotFound => "asset not found".to_string(),
            BotError::OrderNotFound => "order not found".to_string(),
            BotError::InvalidOrderStatus => "order status is invalid".to_string(),
            BotError::ClockOutOfRange => "current time is out of range".to_string(),
            BotError::Custom(message) => message.clone(),
            BotError::PubSub(error) => error.describe(),
        }
    }
}

/// Why a bot could not be built.
#[derive(Debug)]
pub enum BuildError {
    /// The connector and the symbol of an asset that was added twice.
    Duplicate(String, String),
    /// What the builder still lacks.
    BuilderIncomplete(&'static str),
}

} // verus!
