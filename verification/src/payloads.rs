//! The payload of each kind of binding.
//!
//! A payload holds the declared parameter name and, untouched, the attribute
//! arguments that came with it. The kinds that can be used in more than one
//! direction also hold the direction they were given.
//!
//! A trigger and the kind that goes with it (the queue trigger and the queue
//! message, say) are known to the host by one tag: it tells them apart by
//! direction and by the fields they list.

use crate::arguments::Argument;
use crate::direction::Direction;
use vstd::prelude::*;

verus! {

/// The HTTP request that starts a function.
#[derive(Clone, Debug)]
pub struct HttpTrigger {
    pub name: String,
    pub arguments: Vec<Argument>,
}

impl HttpTrigger {
    /// The tag by which the host knows this kind.
    pub fn binding_type() -> (tag: &'static str)
        ensures
            tag@ == "httpTrigger"@,
    {
        "httpTrigger"
    }
}

/// The HTTP response that a function returns.
#[derive(Clone, Debug)]
pub struct Http {
    pub name: String,
    pub arguments: Vec<Argument>,
}

/// The timer that starts a function on a schedule.
#[derive(Clone, Debug)]
pub struct TimerTrigger {
    pub name: String,
    pub arguments: Vec<Argument>,
}

impl TimerTrigger {
    /// The tag by which the host knows this kind.
    pub fn binding_type() -> (tag: &'static str)
        ensures
            tag@ == "timerTrigger"@,
    {
        "timerTrigger"
    }
}

/// The queue message that starts a function.
#[derive(Clone, Debug)]
pub struct QueueTrigger {
    pub name: String,
    pub arguments: Vec<Argument>,
}

impl QueueTrigger {
    /// The tag by which the host knows this kind.
    pub fn binding_type() -> (tag: &'static str)
        ensures
            tag@ == "queueTrigger"@,
    {
        "queueTrigger"
    }
}

/// A message that a function puts on a queue.
#[derive(Clone, Debug)]
pub struct Queue {
    pub name: String,
    pub arguments: Vec<Argument>,
}

impl Queue {
    /// The tag by which the host knows this kind: the one of
    /// [`QueueTrigger`], with which it forms a pair.
    pub fn binding_type() -> (tag: &'static str)
        ensures
            tag@ == "queueTrigger"@,
    {
        QueueTrigger::binding_type()
    }
}

/// The blob whose creation or change starts a function.
#[derive(Clone, Debug)]
pub struct BlobTrigger {
    pub name: String,
    pub direction: Direction,
    pub arguments: Vec<Argument>,
}

impl BlobTrigger {
    /// The tag by which the host knows this kind.
    pub fn binding_type() -> (tag: &'static str)
        ensures
            tag@ == "blobTrigger"@,
    {
        "blobTrigger"
    }
}

/// A blob that a function reads, writes, or both.
#[derive(Clone, Debug)]
pub struct Blob {
    pub name: String,
    pub direction: Direction,
    pub arguments: Vec<Argument>,
}

impl Blob {
    /// The tag by which the host knows this kind: the one of
    /// [`BlobTrigger`], with which it forms a pair.
    pub fn binding_type() -> (tag: &'static str)
        ensures
            tag@ == "blobTrigger"@,
    {
        BlobTrigger::binding_type()
    }
}

/// A table that a function reads or writes.
#[derive(Clone, Debug)]
pub struct Table {
    pub name: String,
    pub direction: Direction,
    pub arguments: Vec<Argument>,
}

impl Table {
    /// The tag by which the host knows this kind.
    pub fn binding_type() -> (tag: &'static str)
        ensures
            tag@ == "table"@,
    {
        "table"
    }
}

/// The Event Grid event that starts a function.
#[derive(Clone, Debug)]
pub struct EventGridTrigger {
    pub name: String,
    pub arguments: Vec<Argument>,
}

impl EventGridTrigger {
    /// The tag by which the host knows this kind.
    pub fn binding_type() -> (tag: &'static str)
        ensures
            tag@ == "eventGridTrigger"@,
    {
        "eventGridTrigger"
    }
}

/// The Event Hub message that starts a function.
#[derive(Clone, Debug)]
pub struct EventHubTrigger {
    pub name: String,
    pub arguments: Vec<Argument>,
}

impl EventHubTrigger {
    /// The tag by which the host knows this kind.
    pub fn binding_type() -> (tag: &'static str)
        ensures
            tag@ == "eventHubTrigger"@,
    {
        "eventHubTrigger"
    }
}

/// A message that a function sends to an Event Hub.
#[derive(Clone, Debug)]
pub struct EventHub {
    pub name: String,
    pub arguments: Vec<Argument>,
}

impl EventHub {
    /// The tag by which the host knows this kind: the one of
    /// [`EventHubTrigger`], with which it forms a pair.
    pub fn binding_type() -> (tag: &'static str)
        ensures
            tag@ == "eventHubTrigger"@,
    {
        EventHubTrigger::binding_type()
    }
}

} // verus!
