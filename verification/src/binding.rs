//! The closed set of bindings and the questions that can be asked of each.

use crate::arguments::{Argument, ArgumentView};
use crate::direction::Direction;
use crate::payloads::{
    Blob, BlobTrigger, EventGridTrigger, EventHub, EventHubTrigger, Http, HttpTrigger, Queue,
    QueueTrigger, Table, TimerTrigger,
};
use vstd::prelude::*;

verus! {

/// The kinds of binding that a parameter can be resolved to.
#[derive(Clone, Copy, Debug, PartialEq, Eq, Structural)]
pub enum Kind {
    HttpTrigger,
    Http,
    TimerTrigger,
    QueueTrigger,
    Queue,
    BlobTrigger,
    Blob,
    Table,
    EventGridTrigger,
    EventHubTrigger,
    EventHub,
}

impl Kind {
    /// The kind that forms a pair with this one: a trigger and the kind that
    /// is not a trigger, both of one service. Three kinds have no partner.
    pub open spec fn partner(self) -> Option<Kind> {
        match self {
            Kind::HttpTrigger => Some(Kind::Http),
            Kind::Http => Some(Kind::HttpTrigger),
            Kind::QueueTrigger => Some(Kind::Queue),
            Kind::Queue => Some(Kind::QueueTrigger),
            Kind::BlobTrigger => Some(Kind::Blob),
            Kind::Blob => Some(Kind::BlobTrigger),
            Kind::EventHubTrigger => Some(Kind::EventHub),
            Kind::EventHub => Some(Kind::EventHubTrigger),
            Kind::TimerTrigger | Kind::Table | Kind::EventGridTrigger => None,
        }
    }

    /// The tag by which the host knows the kind. It is fixed per kind, and
    /// the two kinds of a pair have one tag, that of the trigger.
    pub open spec fn tag(self) -> Seq<char> {
        match self {
            Kind::HttpTrigger | Kind::Http => "httpTrigger"@,
            Kind::TimerTrigger => "timerTrigger"@,
            Kind::QueueTrigger | Kind::Queue => "queueTrigger"@,
            Kind::BlobTrigger | Kind::Blob => "blobTrigger"@,
            Kind::Table => "table"@,
            Kind::EventGridTrigger => "eventGridTrigger"@,
            Kind::EventHubTrigger | Kind::EventHub => "eventHubTrigger"@,
        }
    }

    /// The two kinds of a pair are each other's partner, one of them is a
    /// trigger and the other is not, and they have one tag.
    pub proof fn partners_share_a_tag(self)
        ensures
            self.partner() matches Some(other) ==> {
                &&& other.partner() == Some(self)
                &&& other.starts_function() != self.starts_function()
                &&& other.tag() == self.tag()
            },
    {
    }

    /// Whether the kind starts a function: true of exactly six kinds.
    pub open spec fn starts_function(self) -> bool {
        self == Kind::HttpTrigger || self == Kind::TimerTrigger || self == Kind::QueueTrigger
            || self == Kind::BlobTrigger || self == Kind::EventGridTrigger || self
            == Kind::EventHubTrigger
    }

    /// Whether the payload of the kind holds a direction that can be set.
    pub open spec fn directional(self) -> bool {
        self == Kind::BlobTrigger || self == Kind::Blob || self == Kind::Table
    }

    /// The direction of a binding of the kind as its factory leaves it: `Out`
    /// for the response and message kinds, `In` for all others.
    pub open spec fn initial_direction(self) -> Direction {
        if self == Kind::Http || self == Kind::Queue || self == Kind::EventHub {
            Direction::Out
        } else {
            Direction::In
        }
    }

    /// The direction of a binding of the kind once `stamp` was applied: the
    /// stamp where the kind is directional and a stamp is given, else the
    /// kind's initial direction.
    pub open spec fn stamped_direction(self, stamp: Option<Direction>) -> Direction {
        match stamp {
            Some(direction) if self.directional() => direction,
            _ => self.initial_direction(),
        }
    }

    /// The name of the kind's variant and payload type in source text.
    pub open spec fn spelling(self) -> Seq<char> {
        match self {
            Kind::HttpTrigger => "HttpTrigger"@,
            Kind::Http => "Http"@,
            Kind::TimerTrigger => "TimerTrigger"@,
            Kind::QueueTrigger => "QueueTrigger"@,
            Kind::Queue => "Queue"@,
            Kind::BlobTrigger => "BlobTrigger"@,
            Kind::Blob => "Blob"@,
            Kind::Table => "Table"@,
            Kind::EventGridTrigger => "EventGridTrigger"@,
            Kind::EventHubTrigger => "EventHubTrigger"@,
            Kind::EventHub => "EventHub"@,
        }
    }

    /// Returns the kind's tag.
    pub fn binding_type(self) -> (tag: &'static str)
        ensures
            tag@ == self.tag(),
    {
        match self {
            Kind::HttpTrigger => HttpTrigger::binding_type(),
            Kind::Http => HttpTrigger::binding_type(),
            Kind::TimerTrigger => TimerTrigger::binding_type(),
            Kind::QueueTrigger => QueueTrigger::binding_type(),
            Kind::Queue => Queue::binding_type(),
            Kind::BlobTrigger => BlobTrigger::binding_type(),
            Kind::Blob => Blob::binding_type(),
            Kind::Table => Table::binding_type(),
            Kind::EventGridTrigger => EventGridTrigger::binding_type(),
            Kind::EventHubTrigger => EventHubTrigger::binding_type(),
            Kind::EventHub => EventHub::binding_type(),
        }
    }

    /// The kind that forms a pair with this one, if any.
    pub fn paired_kind(self) -> (other: Option<Kind>)
        ensures
            other == self.partner(),
    {
        match self {
            Kind::HttpTrigger => Some(Kind::Http),
            Kind::Http => Some(Kind::HttpTrigger),
            Kind::QueueTrigger => Some(Kind::Queue),
            Kind::Queue => Some(Kind::QueueTrigger),
            Kind::BlobTrigger => Some(Kind::Blob),
            Kind::Blob => Some(Kind::BlobTrigger),
            Kind::EventHubTrigger => Some(Kind::EventHub),
            Kind::EventHub => Some(Kind::EventHubTrigger),
            Kind::TimerTrigger | Kind::Table | Kind::EventGridTrigger => None,
        }
    }

    /// Whether the kind starts a function.
    pub fn is_trigger(self) -> (trigger: bool)
        ensures
            trigger == self.starts_function(),
    {
        match self {
            Kind::HttpTrigger
            | Kind::TimerTrigger
            | Kind::QueueTrigger
            | Kind::BlobTrigger
            | Kind::EventGridTrigger
            | Kind::EventHubTrigger => true,
            _ => false,
        }
    }

    /// Whether the payload of the kind holds a direction that can be set.
    pub fn is_directional(self) -> (directional: bool)
        ensures
            directional == self.directional(),
    {
        match self {
            Kind::BlobTrigger | Kind::Blob | Kind::Table => true,
            _ => false,
        }
    }

    /// The direction of a binding of the kind as its factory leaves it.
    pub fn default_direction(self) -> (direction: Direction)
        ensures
            direction == self.initial_direction(),
    {
        match self {
            Kind::Http | Kind::Queue | Kind::EventHub => Direction::Out,
            _ => Direction::default(),
        }
    }

    /// The name of the kind's variant and payload type in source text.
    pub fn variant_name(self) -> (name: &'static str)
        ensures
            name@ == self.spelling(),
    {
        match self {
            Kind::HttpTrigger => "HttpTrigger",
            Kind::Http => "Http",
            Kind::TimerTrigger => "TimerTrigger",
            Kind::QueueTrigger => "QueueTrigger",
            Kind::Queue => "Queue",
            Kind::BlobTrigger => "BlobTrigger",
            Kind::Blob => "Blob",
            Kind::Table => "Table",
            Kind::EventGridTrigger => "EventGridTrigger",
            Kind::EventHubTrigger => "EventHubTrigger",
            Kind::EventHub => "EventHub",
        }
    }

    /// Builds the binding of this kind for the parameter `name`, with the
    /// kind's initial direction and with `arguments` handed through.
    pub fn bind(self, name: String, arguments: Vec<Argument>) -> (binding: Binding)
        ensures
            binding.kind_of() == Some(self),
            binding.name_of() == Some(name@),
            binding.direction_of() == Some(self.initial_direction()),
            binding.arguments_of() == arguments.deep_view(),
    {
        let direction = Direction::default();
        match self {
            Kind::HttpTrigger => Binding::HttpTrigger(HttpTrigger { name, arguments }),
            Kind::Http => Binding::Http(Http { name, arguments }),
            Kind::TimerTrigger => Binding::TimerTrigger(TimerTrigger { name, arguments }),
            Kind::QueueTrigger => Binding::QueueTrigger(QueueTrigger { name, arguments }),
            Kind::Queue => Binding::Queue(Queue { name, arguments }),
            Kind::BlobTrigger => Binding::BlobTrigger(BlobTrigger { name, direction, arguments }),
            Kind::Blob => Binding::Blob(Blob { name, direction, arguments }),
            Kind::Table => Binding::Table(Table { name, direction, arguments }),
            Kind::EventGridTrigger => Binding::EventGridTrigger(
                EventGridTrigger { name, arguments },
            ),
            Kind::EventHubTrigger => Binding::EventHubTrigger(EventHubTrigger { name, arguments }),
            Kind::EventHub => Binding::EventHub(EventHub { name, arguments }),
        }
    }
}

/// What a binding other than `Context` stands for.
pub struct BindingView {
    pub kind: Kind,
    pub name: Seq<char>,
    pub direction: Direction,
    pub arguments: Seq<ArgumentView>,
}

/// What one parameter of a function is bound to.
///
/// `Context` stands for the parameter that receives the function's execution
/// context: it is bound to nothing, and has neither name nor tag.
#[derive(Clone, Debug)]
pub enum Binding {
    Context,
    HttpTrigger(HttpTrigger),
    Http(Http),
    TimerTrigger(TimerTrigger),
    QueueTrigger(QueueTrigger),
    Queue(Queue),
    BlobTrigger(BlobTrigger),
    Blob(Blob),
    Table(Table),
    EventGridTrigger(EventGridTrigger),
    EventHubTrigger(EventHubTrigger),
    EventHub(EventHub),
}

impl View for Binding {
    type V = Option<BindingView>;

    /// Kind, name, direction and arguments of the binding; `None` for
    /// `Context`.
    open spec fn view(&self) -> Option<BindingView> {
        match self.kind_of() {
            Some(kind) => Some(
                BindingView {
                    kind,
                    name: self.name_of()->0,
                    direction: self.direction_of()->0,
                    arguments: self.arguments_of(),
                },
            ),
            None => None,
        }
    }
}

impl Binding {
    /// The kind of the binding; `Context` has none.
    pub open spec fn kind_of(self) -> Option<Kind> {
        match self {
            Binding::Context => None,
            Binding::HttpTrigger(_) => Some(Kind::HttpTrigger),
            Binding::Http(_) => Some(Kind::Http),
            Binding::TimerTrigger(_) => Some(Kind::TimerTrigger),
            Binding::QueueTrigger(_) => Some(Kind::QueueTrigger),
            Binding::Queue(_) => Some(Kind::Queue),
            Binding::BlobTrigger(_) => Some(Kind::BlobTrigger),
            Binding::Blob(_) => Some(Kind::Blob),
            Binding::Table(_) => Some(Kind::Table),
            Binding::EventGridTrigger(_) => Some(Kind::EventGridTrigger),
            Binding::EventHubTrigger(_) => Some(Kind::EventHubTrigger),
            Binding::EventHub(_) => Some(Kind::EventHub),
        }
    }

    /// The declared name that the payload holds; `Context` has none.
    pub open spec fn name_of(self) -> Option<Seq<char>> {
        match self {
            Binding::Context => None,
            Binding::HttpTrigger(b) => Some(b.name@),
            Binding::Http(b) => Some(b.name@),
            Binding::TimerTrigger(b) => Some(b.name@),
            Binding::QueueTrigger(b) => Some(b.name@),
            Binding::Queue(b) => Some(b.name@),
            Binding::BlobTrigger(b) => Some(b.name@),
            Binding::Blob(b) => Some(b.name@),
            Binding::Table(b) => Some(b.name@),
            Binding::EventGridTrigger(b) => Some(b.name@),
            Binding::EventHubTrigger(b) => Some(b.name@),
            Binding::EventHub(b) => Some(b.name@),
        }
    }

    /// The direction of the binding: the one its payload holds where the
    /// kind is directional, else the kind's own. `Context` has none.
    pub open spec fn direction_of(self) -> Option<Direction> {
        match self {
            Binding::Context => None,
            Binding::BlobTrigger(b) => Some(b.direction),
            Binding::Blob(b) => Some(b.direction),
            Binding::Table(b) => Some(b.direction),
            _ => Some(self.kind_of()->0.initial_direction()),
        }
    }

    /// The arguments that the payload hands through; `Context` has none.
    pub open spec fn arguments_of(self) -> Seq<ArgumentView> {
        match self {
            Binding::Context => Seq::empty(),
            Binding::HttpTrigger(b) => b.arguments.deep_view(),
            Binding::Http(b) => b.arguments.deep_view(),
            Binding::TimerTrigger(b) => b.arguments.deep_view(),
            Binding::QueueTrigger(b) => b.arguments.deep_view(),
            Binding::Queue(b) => b.arguments.deep_view(),
            Binding::BlobTrigger(b) => b.arguments.deep_view(),
            Binding::Blob(b) => b.arguments.deep_view(),
            Binding::Table(b) => b.arguments.deep_view(),
            Binding::EventGridTrigger(b) => b.arguments.deep_view(),
            Binding::EventHubTrigger(b) => b.arguments.deep_view(),
            Binding::EventHub(b) => b.arguments.deep_view(),
        }
    }

    /// The invariant of a binding that came out of resolution: its name is
    /// not empty.
    pub open spec fn well_formed(self) -> bool {
        self.name_of() matches Some(name) ==> name.len() > 0
    }

    /// A binding of a trigger kind and a binding of its partner have one
    /// tag, whatever their payloads hold.
    pub proof fn paired_bindings_share_a_tag(self, other: Binding)
        requires
            self.kind_of() matches Some(kind) && kind.partner() is Some && kind.partner()
                == other.kind_of(),
        ensures
            self.kind_of()->0.tag() == other.kind_of()->0.tag(),
    {
    }

    /// The declared parameter name, absent for `Context`.
    pub fn name(&self) -> (name: Option<&str>)
        ensures
            match name {
                Some(text) => self.name_of() == Some(text@),
                None => *self == Binding::Context,
            },
    {
        match self {
            Binding::Context => None,
            Binding::HttpTrigger(b) => Some(b.name.as_str()),
            Binding::Http(b) => Some(b.name.as_str()),
            Binding::TimerTrigger(b) => Some(b.name.as_str()),
            Binding::QueueTrigger(b) => Some(b.name.as_str()),
            Binding::Queue(b) => Some(b.name.as_str()),
            Binding::BlobTrigger(b) => Some(b.name.as_str()),
            Binding::Blob(b) => Some(b.name.as_str()),
            Binding::Table(b) => Some(b.name.as_str()),
            Binding::EventGridTrigger(b) => Some(b.name.as_str()),
            Binding::EventHubTrigger(b) => Some(b.name.as_str()),
            Binding::EventHub(b) => Some(b.name.as_str()),
        }
    }

    /// The tag by which the host knows the binding's kind, absent for
    /// `Context`. It depends on the kind alone, never on the payload, and a
    /// trigger and its partner have one tag.
    pub fn binding_type(&self) -> (tag: Option<&str>)
        ensures
            match tag {
                Some(text) => self.kind_of() matches Some(kind) && text@ == kind.tag(),
                None => *self == Binding::Context,
            },
    {
        match self {
            Binding::Context => None,
            Binding::HttpTrigger(_) => Some(HttpTrigger::binding_type()),
            Binding::Http(_) => Some(HttpTrigger::binding_type()),
            Binding::TimerTrigger(_) => Some(TimerTrigger::binding_type()),
            Binding::QueueTrigger(_) => Some(QueueTrigger::binding_type()),
            Binding::Queue(_) => Some(Queue::binding_type()),
            Binding::BlobTrigger(_) => Some(BlobTrigger::binding_type()),
            Binding::Blob(_) => Some(Blob::binding_type()),
            Binding::Table(_) => Some(Table::binding_type()),
            Binding::EventGridTrigger(_) => Some(EventGridTrigger::binding_type()),
            Binding::EventHubTrigger(_) => Some(EventHubTrigger::binding_type()),
            Binding::EventHub(_) => Some(EventHub::binding_type()),
        }
    }

    /// Whether this is the `Context` binding.
    pub fn is_context(&self) -> (context: bool)
        ensures
            context == (*self == Binding::Context),
            context == (self.kind_of() is None),
    {
        match self {
            Binding::Context => true,
            _ => false,
        }
    }

    /// Whether the binding starts a function: true of the six trigger kinds,
    /// false of every other kind and of `Context`.
    pub fn is_trigger(&self) -> (trigger: bool)
        ensures
            trigger == (self is HttpTrigger || self is TimerTrigger || self is QueueTrigger
                || self is BlobTrigger || self is EventGridTrigger || self is EventHubTrigger),
            trigger == (self.kind_of() matches Some(kind) && kind.starts_function()),
    {
        match self {
            Binding::HttpTrigger(_)
            | Binding::TimerTrigger(_)
            | Binding::QueueTrigger(_)
            | Binding::BlobTrigger(_)
            | Binding::EventGridTrigger(_)
            | Binding::EventHubTrigger(_) => true,
            _ => false,
        }
    }

    /// The kind of the binding, absent for `Context`.
    pub fn kind(&self) -> (kind: Option<Kind>)
        ensures
            kind == self.kind_of(),
    {
        match self {
            Binding::Context => None,
            Binding::HttpTrigger(_) => Some(Kind::HttpTrigger),
            Binding::Http(_) => Some(Kind::Http),
            Binding::TimerTrigger(_) => Some(Kind::TimerTrigger),
            Binding::QueueTrigger(_) => Some(Kind::QueueTrigger),
            Binding::Queue(_) => Some(Kind::Queue),
            Binding::BlobTrigger(_) => Some(Kind::BlobTrigger),
            Binding::Blob(_) => Some(Kind::Blob),
            Binding::Table(_) => Some(Kind::Table),
            Binding::EventGridTrigger(_) => Some(Kind::EventGridTrigger),
            Binding::EventHubTrigger(_) => Some(Kind::EventHubTrigger),
            Binding::EventHub(_) => Some(Kind::EventHub),
        }
    }

    /// The direction of the binding, absent for `Context`.
    pub fn direction(&self) -> (direction: Option<Direction>)
        ensures
            direction == self.direction_of(),
    {
        match self {
            Binding::Context => None,
            Binding::BlobTrigger(b) => Some(b.direction),
            Binding::Blob(b) => Some(b.direction),
            Binding::Table(b) => Some(b.direction),
            Binding::Http(_) | Binding::Queue(_) | Binding::EventHub(_) => Some(Direction::Out),
            _ => Some(Direction::In),
        }
    }

    /// The arguments that the payload hands through, absent for `Context`.
    pub fn arguments(&self) -> (arguments: Option<&Vec<Argument>>)
        ensures
            match arguments {
                Some(list) => !(self is Context) && list.deep_view() == self.arguments_of(),
                None => *self == Binding::Context,
            },
    {
        match self {
            Binding::Context => None,
            Binding::HttpTrigger(b) => Some(&b.arguments),
            Binding::Http(b) => Some(&b.arguments),
            Binding::TimerTrigger(b) => Some(&b.arguments),
            Binding::QueueTrigger(b) => Some(&b.arguments),
            Binding::Queue(b) => Some(&b.arguments),
            Binding::BlobTrigger(b) => Some(&b.arguments),
            Binding::Blob(b) => Some(&b.arguments),
            Binding::Table(b) => Some(&b.arguments),
            Binding::EventGridTrigger(b) => Some(&b.arguments),
            Binding::EventHubTrigger(b) => Some(&b.arguments),
            Binding::EventHub(b) => Some(&b.arguments),
        }
    }

    /// Kind, name, direction and arguments of a binding other than
    /// `Context`.
    pub(crate) fn parts(&self) -> (parts: (Kind, &str, Direction, &Vec<Argument>))
        requires
            !(self is Context),
        ensures
            self@ == Some(
                BindingView {
                    kind: parts.0,
                    name: parts.1@,
                    direction: parts.2,
                    arguments: parts.3.deep_view(),
                },
            ),
    {
        match self {
            Binding::Context => vstd::pervasive::unreached(),
            Binding::HttpTrigger(b) => (
                Kind::HttpTrigger,
                b.name.as_str(),
                Direction::In,
                &b.arguments,
            ),
            Binding::Http(b) => (Kind::Http, b.name.as_str(), Direction::Out, &b.arguments),
            Binding::TimerTrigger(b) => (
                Kind::TimerTrigger,
                b.name.as_str(),
                Direction::In,
                &b.arguments,
            ),
            Binding::QueueTrigger(b) => (
                Kind::QueueTrigger,
                b.name.as_str(),
                Direction::In,
                &b.arguments,
            ),
            Binding::Queue(b) => (Kind::Queue, b.name.as_str(), Direction::Out, &b.arguments),
            Binding::BlobTrigger(b) => (
                Kind::BlobTrigger,
                b.name.as_str(),
                b.direction,
                &b.arguments,
            ),
            Binding::Blob(b) => (Kind::Blob, b.name.as_str(), b.direction, &b.arguments),
            Binding::Table(b) => (Kind::Table, b.name.as_str(), b.direction, &b.arguments),
            Binding::EventGridTrigger(b) => (
                Kind::EventGridTrigger,
                b.name.as_str(),
                Direction::In,
                &b.arguments,
            ),
            Binding::EventHubTrigger(b) => (
                Kind::EventHubTrigger,
                b.name.as_str(),
                Direction::In,
                &b.arguments,
            ),
            Binding::EventHub(b) => (Kind::EventHub, b.name.as_str(), Direction::Out, &b.arguments),
        }
    }

    /// Stamps `direction` on the binding. Only the directional kinds take a
    /// stamp; every other binding comes back as it was. Kind, name and
    /// arguments never change.
    pub fn with_direction(self, direction: Direction) -> (stamped: Binding)
        ensures
            stamped.kind_of() == self.kind_of(),
            stamped.name_of() == self.name_of(),
            stamped.arguments_of() == self.arguments_of(),
            stamped.direction_of() == match self.kind_of() {
                Some(kind) if kind.directional() => Some(direction),
                _ => self.direction_of(),
            },
            !(self.kind_of() matches Some(kind) && kind.directional()) ==> stamped == self,
    {
        match self {
            Binding::BlobTrigger(b) => Binding::BlobTrigger(
                BlobTrigger { name: b.name, direction, arguments: b.arguments },
            ),
            Binding::Blob(b) => Binding::Blob(
                Blob { name: b.name, direction, arguments: b.arguments },
            ),
            Binding::Table(b) => Binding::Table(
                Table { name: b.name, direction, arguments: b.arguments },
            ),
            other => other,
        }
    }
}

} // verus!
