//! The upgrade of stored rules: which upgrade a stored version calls for,
//! and what it does to a rule.

use crate::model::RateLimitView;
use crate::state::{rules_view, RateLimit};
use vstd::prelude::*;

verus! {

/// An upgrade of the stored rules.
#[derive(Debug, Clone, Copy, PartialEq, Eq, Structural)]
pub enum Migration {
    /// Switches decay averaging on for every rule.
    V1,
}

/// Why no upgrade can be made.
#[derive(Debug, Clone, Copy, PartialEq, Eq, Structural)]
pub enum MigrationError {
    /// What is stored belongs to another contract.
    WrongContract,
    /// There is no upgrade from the stored version.
    MissingMigrateFunction,
    /// The stored version is not older than the code.
    NewerVersion,
}

/// The upgrade that the stored version calls for.
pub open spec fn migration_for(
    same_contract: bool,
    stored_is_older: bool,
    major: u64,
    minor: u64,
    patch: u64,
) -> Result<Migration, MigrationError> {
    if !same_contract {
        Err(MigrationError::WrongContract)
    } else if !stored_is_older {
        Err(MigrationError::NewerVersion)
    } else if major == 0 && minor == 1 && patch == 0 {
        Ok(Migration::V1)
    } else {
        Err(MigrationError::MissingMigrateFunction)
    }
}

/// Chooses the upgrade for what is stored. The stored contract name has to
/// be the expected one and the stored version older than the code, which
/// `stored_is_older` tells; only from version `0.1.0` is there an upgrade.
pub fn choose_migration(
    stored_contract: &String,
    expected_contract: &String,
    stored_is_older: bool,
    major: u64,
    minor: u64,
    patch: u64,
) -> (r: Result<Migration, MigrationError>)
    ensures
        r == migration_for(
            stored_contract@ == expected_contract@,
            stored_is_older,
            major,
            minor,
            patch,
        ),
{
    if !stored_contract.eq(expected_contract) {
        return Err(MigrationError::WrongContract);
    }
    if stored_is_older {
        if major == 0 && minor == 1 && patch == 0 {
            Ok(Migration::V1)
        } else {
            Err(MigrationError::MissingMigrateFunction)
        }
    } else {
        Err(MigrationError::NewerVersion)
    }
}

/// The rules of a path after the upgrade.
pub open spec fn after_upgrade(rules: Seq<RateLimitView>) -> Seq<RateLimitView> {
    rules.map_values(|rule: RateLimitView| rule.upgraded())
}

/// Upgrades one rule: decay averaging is switched on and everything else
/// is kept. The upgrade only goes this way; a rule that has it keeps it.
pub fn upgrade_rule(rule: &RateLimit) -> (r: RateLimit)
    ensures
        r@ == rule@.upgraded(),
        r@.is_v1_migrated(),
        r.quota == rule.quota,
        r.flow == rule.flow,
{
    let mut upgraded = rule.clone();
    upgraded.v1_migration = Some(true);
    upgraded
}

/// Upgrades the rules of one path, in their order, and counts them.
pub fn v1_migrate(rules: &Vec<RateLimit>) -> (r: (Vec<RateLimit>, u64))
    ensures
        rules_view(r.0@) == after_upgrade(rules_view(rules@)),
        r.1 == rules.len(),
{
    let mut migrated: Vec<RateLimit> = Vec::new();
    let mut i: usize = 0;
    while i < rules.len()
        invariant
            i <= rules.len(),
            migrated.len() == i,
            forall|j: int| 0 <= j < i ==> (#[trigger] migrated[j])@ == rules[j]@.upgraded(),
        decreases rules.len() - i,
    {
        migrated.push(upgrade_rule(&rules[i]));
        i += 1;
    }
    (migrated, rules.len() as u64)
}

} // verus!
