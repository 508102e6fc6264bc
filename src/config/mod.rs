use vstd::prelude::*;

use crate::error::Error;
use crate::launcher::{check_unique_ports, declared_ports, flat};
use crate::node::{Collator, Validator};
use crate::ports::{port_check, present};

mod collator;
mod validator;

pub use collator::{CollatorConfig, CollatorNodeConfig, CollatorNodeRelayConfig};
pub use validator::{ValidatorConfig, ValidatorNodeConfig};

verus! {

/// A launch configuration: a name, an author, a mode, and the validators and
/// collators to start.
#[derive(Debug)]
pub struct Config {
    pub name: Option<String>,
    pub author: Option<String>,
    pub mode: Option<String>,
    pub validator: ValidatorConfig,
    pub collator: CollatorConfig,
}

/// The owned text of an optional string.
pub open spec fn opt_text(s: Option<&str>) -> Option<Seq<char>> {
    match s {
        Some(s) => Some(s@),
        None => None,
    }
}

/// The text of an optional owned string.
pub open spec fn opt_string(s: Option<String>) -> Option<Seq<char>> {
    match s {
        Some(s) => Some(s@),
        None => None,
    }
}

impl Config {
    /// Every port the configuration declares: the validators' first, then the
    /// collators', each node's in its own order.
    pub open spec fn ports_spec(&self) -> Seq<u16> {
        flat(
            Seq::new(
                self.validator.nodes@.len(),
                |i: int| present(self.validator.validator_view(i).ports()),
            ),
        ) + flat(
            Seq::new(
                self.collator.nodes@.len(),
                |i: int| present(self.collator.collator_view(i).ports()),
            ),
        )
    }

    /// Checks that no port is declared twice (see `Launcher::ensure_unique_ports`).
    pub fn ensure_unique_ports(&self) -> (r: Result<(), Error>)
        ensures
            r == port_check(self.ports_spec()),
    {
        let validators = self.validator.validators();
        let collators = self.collator.collators();
        assert(validators@.map_values(|v: Validator| present(v@.ports())) =~= Seq::new(
            self.validator.nodes@.len(),
            |i: int| present(self.validator.validator_view(i).ports()),
        ));
        assert(collators@.map_values(|c: Collator| present(c@.ports())) =~= Seq::new(
            self.collator.nodes@.len(),
            |i: int| present(self.collator.collator_view(i).ports()),
        ));
        assert(declared_ports(validators@, collators@) == self.ports_spec());
        check_unique_ports(&validators, &collators)
    }
}

fn to_owned_opt(s: Option<&str>) -> (r: Option<String>)
    ensures
        opt_string(r) == opt_text(s),
{
    match s {
        Some(s) => Some(s.to_owned()),
        None => None,
    }
}

impl Config {
    pub fn new(
        name: Option<&str>,
        author: Option<&str>,
        mode: Option<&str>,
        validator: ValidatorConfig,
        collator: CollatorConfig,
    ) -> (r: Config)
        ensures
            opt_string(r.name) == opt_text(name),
            opt_string(r.author) == opt_text(author),
            opt_string(r.mode) == opt_text(mode),
            r.validator == validator,
            r.collator == collator,
    {
        Config {
            name: to_owned_opt(name),
            author: to_owned_opt(author),
            mode: to_owned_opt(mode),
            validator,
            collator,
        }
    }
}

} // verus!
