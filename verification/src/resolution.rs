//! Resolution: from a parameter's role name and its use to a binding.

use crate::arguments::{
    declared_name, remaining_arguments, take_name, Argument, ArgumentView, NameFault,
};
use crate::binding::{Binding, BindingView, Kind};
use crate::direction::Direction;
use crate::registry::Registry;
use proc_macro2::Span;
use vstd::prelude::*;

verus! {

/// How a function uses the parameter that is being resolved.
#[derive(Clone, Copy, Debug, PartialEq, Eq, Structural)]
pub enum Usage {
    /// The parameter is what starts the function.
    Trigger,
    /// The parameter is read.
    Input,
    /// The parameter is read and written.
    InputOutput,
    /// The parameter is written.
    Output,
}

impl Usage {
    /// The direction that this use stamps on a directional binding. A
    /// trigger and an input keep the direction that the factory gave.
    pub open spec fn stamp(self) -> Option<Direction> {
        match self {
            Usage::Trigger => None,
            Usage::Input => None,
            Usage::InputOutput => Some(Direction::InOut),
            Usage::Output => Some(Direction::Out),
        }
    }

    /// Returns [`Usage::stamp`].
    pub fn direction_stamp(self) -> (stamp: Option<Direction>)
        ensures
            stamp == self.stamp(),
    {
        match self {
            Usage::Trigger => None,
            Usage::Input => None,
            Usage::InputOutput => Some(Direction::InOut),
            Usage::Output => Some(Direction::Out),
        }
    }
}

/// Why a parameter could not be resolved.
#[derive(Clone, Copy, Debug, PartialEq, Eq, Structural)]
pub enum Fault {
    /// No registry that applies to the use knows the role name.
    UnsupportedRole,
    /// The arguments declare no parameter name.
    MalformedArguments(NameFault),
}

/// A failed resolution, with the role name and the source position of the
/// parameter it is about.
#[derive(Debug)]
pub struct ResolutionError {
    pub fault: Fault,
    pub role: String,
    pub span: Span,
}

/// The kind that `registry` holds for `role`, if any.
pub open spec fn known(registry: Map<Seq<char>, Kind>, role: Seq<char>) -> Option<Kind> {
    if registry.dom().contains(role) {
        Some(registry[role])
    } else {
        None
    }
}

/// The binding that the factory of `kind` builds from `arguments`, or why
/// it builds none. The direction is the kind's initial one.
pub open spec fn built(kind: Kind, arguments: Seq<ArgumentView>) -> Result<BindingView, Fault> {
    match declared_name(arguments) {
        Ok(name) => Ok(
            BindingView {
                kind,
                name,
                direction: kind.initial_direction(),
                arguments: remaining_arguments(arguments),
            },
        ),
        Err(fault) => Err(Fault::MalformedArguments(fault)),
    }
}

/// The factory of `kind`: builds the binding for the parameter that
/// `arguments` declare. The arguments are taken as written; all but the one
/// that declares the name are handed through to the payload.
pub fn create(kind: Kind, arguments: Vec<Argument>) -> (created: Result<Binding, NameFault>)
    ensures
        match created {
            Ok(binding) => built(kind, arguments.deep_view()) == Ok::<BindingView, Fault>(
                binding@->0,
            ) && binding@ is Some && binding.well_formed(),
            Err(fault) => built(kind, arguments.deep_view()) == Err::<BindingView, Fault>(
                Fault::MalformedArguments(fault),
            ),
        },
{
    match take_name(arguments) {
        Ok((name, rest)) => Ok(kind.bind(name, rest)),
        Err(fault) => Err(fault),
    }
}

/// The four registries that resolution consults.
pub struct Registries {
    pub triggers: Registry,
    pub inputs: Registry,
    pub input_outputs: Registry,
    pub outputs: Registry,
}

impl Registries {
    /// The registries with the role names that this crate supports.
    pub fn standard() -> (registries: Registries)
        ensures
            registries.is_standard(),
    {
        Registries {
            triggers: Registry::triggers(),
            inputs: Registry::input_bindings(),
            input_outputs: Registry::input_output_bindings(),
            outputs: Registry::output_bindings(),
        }
    }

    /// Whether these are the registries of [`Registries::standard`].
    pub open spec fn is_standard(&self) -> bool {
        &&& self.triggers@ == crate::registry::triggers()
        &&& self.inputs@ == crate::registry::input_bindings()
        &&& self.input_outputs@ == crate::registry::input_output_bindings()
        &&& self.outputs@ == crate::registry::output_bindings()
    }

    /// The kind that `role` stands for under `usage`.
    ///
    /// A trigger is looked up among the triggers only, and a parameter that
    /// is read and written among the input-outputs only. An input is looked
    /// up among the inputs first, an output among the outputs first, and
    /// either among the input-outputs if it is not found there.
    pub open spec fn selects(&self, usage: Usage, role: Seq<char>) -> Option<Kind> {
        match usage {
            Usage::Trigger => known(self.triggers@, role),
            Usage::Input => match known(self.inputs@, role) {
                Some(kind) => Some(kind),
                None => known(self.input_outputs@, role),
            },
            Usage::InputOutput => known(self.input_outputs@, role),
            Usage::Output => match known(self.outputs@, role) {
                Some(kind) => Some(kind),
                None => known(self.input_outputs@, role),
            },
        }
    }

    /// What resolving `role` under `usage` with `arguments` comes to: the
    /// binding that the selected factory builds, stamped with the direction
    /// of the use where its kind takes one.
    pub open spec fn resolution(
        &self,
        usage: Usage,
        role: Seq<char>,
        arguments: Seq<ArgumentView>,
    ) -> Result<BindingView, Fault> {
        match self.selects(usage, role) {
            None => Err(Fault::UnsupportedRole),
            Some(kind) => match built(kind, arguments) {
                Ok(binding) => Ok(
                    BindingView { direction: kind.stamped_direction(usage.stamp()), ..binding },
                ),
                Err(fault) => Err(fault),
            },
        }
    }

    /// The registry that goes with `usage`: the first one that resolution
    /// consults for it.
    pub open spec fn registry_of(&self, usage: Usage) -> Map<Seq<char>, Kind> {
        match usage {
            Usage::Trigger => self.triggers@,
            Usage::Input => self.inputs@,
            Usage::InputOutput => self.input_outputs@,
            Usage::Output => self.outputs@,
        }
    }

    /// A role name that exactly one registry knows, resolved under the use
    /// that goes with that registry, gives a binding of the kind that the
    /// registry holds for the role, hence with that kind's tag, and with the
    /// name that the arguments declare.
    pub proof fn role_of_one_registry_resolves(
        self,
        usage: Usage,
        role: Seq<char>,
        arguments: Seq<ArgumentView>,
    )
        requires
            self.registry_of(usage).dom().contains(role),
            forall|other: Usage| other != usage ==> !self.registry_of(other).dom().contains(role),
            declared_name(arguments) is Ok,
        ensures
            self.resolution(usage, role, arguments) matches Ok(binding) && {
                &&& binding.kind == self.registry_of(usage)[role]
                &&& binding.kind.tag() == self.registry_of(usage)[role].tag()
                &&& Ok::<Seq<char>, NameFault>(binding.name) == declared_name(arguments)
            },
    {
    }

    /// With the standard registries, a role name that the input-output
    /// registry knows resolves to direction `In` as an input, `Out` as an
    /// output, and `InOut` as both.
    pub proof fn input_output_role_takes_each_direction(
        self,
        role: Seq<char>,
        arguments: Seq<ArgumentView>,
    )
        requires
            self.is_standard(),
            self.input_outputs@.dom().contains(role),
            declared_name(arguments) is Ok,
        ensures
            self.resolution(Usage::Input, role, arguments) matches Ok(binding) && binding.direction
                == Direction::In,
            self.resolution(Usage::Output, role, arguments) matches Ok(binding)
                && binding.direction == Direction::Out,
            self.resolution(Usage::InputOutput, role, arguments) matches Ok(binding)
                && binding.direction == Direction::InOut,
    {
        reveal_strlit("BlobTrigger");
        reveal_strlit("Blob");
        reveal_strlit("Table");
        reveal_strlit("HttpResponse");
        reveal_strlit("QueueMessage");
        reveal_strlit("EventHubMessage");
        assert(role == "BlobTrigger"@ || role == "Blob"@);
        assert("BlobTrigger"@.len() == 11 && "Blob"@.len() == 4 && "Table"@.len() == 5);
        assert("HttpResponse"@.len() == 12 && "QueueMessage"@.len() == 12 && "EventHubMessage"@.len()
            == 15);
        assert("HttpResponse"@[0] == 'H' && "QueueMessage"@[0] == 'Q' && "BlobTrigger"@[0] == 'B');
    }

    /// Finds the kind that `role` stands for under `usage`.
    pub fn select(&self, usage: Usage, role: &str) -> (kind: Option<Kind>)
        ensures
            kind == self.selects(usage, role@),
    {
        match usage {
            Usage::Trigger => self.triggers.get(role),
            Usage::Input => match self.inputs.get(role) {
                Some(kind) => Some(kind),
                None => self.input_outputs.get(role),
            },
            Usage::InputOutput => self.input_outputs.get(role),
            Usage::Output => match self.outputs.get(role) {
                Some(kind) => Some(kind),
                None => self.input_outputs.get(role),
            },
        }
    }

    /// Resolves the parameter with the role name `role`, used as `usage` and
    /// declared with `arguments` at `span`.
    ///
    /// Fails if no registry that applies knows the role, or if the arguments
    /// declare no name; the error then holds `role` and `span`.
    pub fn resolve(&self, usage: Usage, role: &str, arguments: Vec<Argument>, span: Span) -> (resolved:
        Result<Binding, ResolutionError>)
        ensures
            match resolved {
                Ok(binding) => {
                    &&& binding@ is Some
                    &&& self.resolution(usage, role@, arguments.deep_view()) == Ok::<
                        BindingView,
                        Fault,
                    >(binding@->0)
                    &&& binding.well_formed()
                },
                Err(error) => {
                    &&& self.resolution(usage, role@, arguments.deep_view()) == Err::<
                        BindingView,
                        Fault,
                    >(error.fault)
                    &&& error.role@ == role@
                    &&& error.span == span
                },
            },
    {
        let kind = match self.select(usage, role) {
            Some(kind) => kind,
            None => {
                return Err(
                    ResolutionError { fault: Fault::UnsupportedRole, role: role.to_owned(), span },
                );
            },
        };
        match create(kind, arguments) {
            Ok(binding) => Ok(apply_stamp(binding, usage.direction_stamp())),
            Err(fault) => Err(
                ResolutionError {
                    fault: Fault::MalformedArguments(fault),
                    role: role.to_owned(),
                    span,
                },
            ),
        }
    }
}

/// Applies the stamp of a use to a binding that a factory built.
pub fn apply_stamp(binding: Binding, stamp: Option<Direction>) -> (stamped: Binding)
    ensures
        stamped@ == match binding@ {
            Some(view) => Some(
                BindingView {
                    direction: match stamp {
                        Some(direction) if view.kind.directional() => direction,
                        _ => view.direction,
                    },
                    ..view
                },
            ),
            None => None,
        },
{
    match stamp {
        Some(direction) => binding.with_direction(direction),
        None => binding,
    }
}

} // verus!
