//! The ownership checker: move-once semantics for locally bound names
//! inside a method body.
//!
//! A name is registered with its ownership facts and type; moving it
//! marks it consumed, and a `Moved` name may be moved at most once.
//! Copying is permitted of a `Copied` name, of a `Shared` name (the
//! reference is duplicated, not the referent), and of an `Owned` name
//! whose type the lowerer deems copyable; a `Moved` name may never be
//! copied.  A name that was never registered fails either check.

use vstd::prelude::*;
use vstd::string::StringExecFns;
use crate::ast::{OwnershipInfo, OwnershipType, Type};
use crate::codegen::lower::{copyable, type_copyable};
use crate::table::{assoc_lookup, NameTable};

verus! {

/// What the checker tracks for one bound name.
#[derive(Debug)]
pub struct SymbolState {
    pub info: OwnershipInfo,
    pub var_type: Type,
    pub consumed: bool,
}

/// Whether a move of a name in this state is rejected: only a `Moved`
/// name that was already consumed.
pub open spec fn move_rejected(st: SymbolState) -> bool {
    st.info.ownership_type is Moved && st.consumed
}

/// Whether a copy of a name in this state is permitted: a `Copied`
/// name, a `Shared` name, or an `Owned` name of copyable type.
pub open spec fn copy_permitted(st: SymbolState) -> bool {
    match st.info.ownership_type {
        OwnershipType::Copied => true,
        OwnershipType::Shared => true,
        OwnershipType::Owned => copyable(st.var_type),
        OwnershipType::Moved => false,
    }
}

/// Tracks ownership state per locally bound name.
pub struct OwnershipChecker {
    pub symbol_table: NameTable<SymbolState>,
}

impl OwnershipChecker {
    /// A checker with no bound names.
    pub fn new() -> (c: Self)
        ensures
            c.symbol_table@ =~= Seq::<(String, SymbolState)>::empty(),
    {
        OwnershipChecker { symbol_table: NameTable::new() }
    }

    /// Binds a name with its ownership facts and type, not yet consumed.
    pub fn register_variable(&mut self, name: String, info: OwnershipInfo, var_type: Type)
        ensures
            final(self).symbol_table@ == old(self).symbol_table@.push(
                (name, SymbolState { info, var_type, consumed: false }),
            ),
    {
        self.symbol_table.insert(name, SymbolState { info, var_type, consumed: false });
    }

    /// Checks a move of `var_name` and marks it consumed.  A `Moved`
    /// name that was already consumed is rejected, as is an unknown
    /// name; any other name is marked consumed and the move permitted.
    pub fn check_move(&mut self, var_name: &str) -> (r: Result<(), String>)
        ensures
            match assoc_lookup(old(self).symbol_table@, var_name@) {
                None => {
                    &&& r matches Err(m) && m@ == "Unknown variable: "@ + var_name@
                    &&& final(self).symbol_table@ == old(self).symbol_table@
                },
                Some(st) => if move_rejected(st) {
                    &&& r matches Err(m) && m@ == "Ownership violation: "@ + var_name@
                        + " was already moved"@
                    &&& final(self).symbol_table@ == old(self).symbol_table@
                } else {
                    &&& r is Ok
                    &&& final(self).symbol_table@.len() == old(self).symbol_table@.len() + 1
                    &&& final(self).symbol_table@.drop_last() == old(self).symbol_table@
                    &&& final(self).symbol_table@.last().0@ == var_name@
                    &&& final(self).symbol_table@.last().1 == (SymbolState {
                        consumed: true,
                        ..st
                    })
                },
            },
    {
        let st = match self.symbol_table.get(var_name) {
            Some(st) => st,
            None => {
                let mut msg = String::from_str("Unknown variable: ");
                msg.append(var_name);
                return Err(msg);
            },
        };
        if matches!(st.info.ownership_type, OwnershipType::Moved) && st.consumed {
            let mut msg = String::from_str("Ownership violation: ");
            msg.append(var_name);
            msg.append(" was already moved");
            return Err(msg);
        }
        let consumed_state = SymbolState {
            info: st.info,
            var_type: st.var_type.clone(),
            consumed: true,
        };
        self.symbol_table.insert(var_name.to_owned(), consumed_state);
        Ok(())
    }

    /// Checks a copy out of `from`.  A `Copied` source is always
    /// permitted, a `Shared` source duplicates the reference, an `Owned`
    /// source must be of copyable type, and a `Moved` source may never
    /// be copied; an unknown name is rejected.  The checker's state is
    /// untouched.
    pub fn check_copy(&mut self, from: &str, to: &str) -> (r: Result<(), String>)
        ensures
            final(self).symbol_table@ == old(self).symbol_table@,
            match assoc_lookup(old(self).symbol_table@, from@) {
                None => r matches Err(m) && m@ == "Unknown variable: "@ + from@,
                Some(st) => if copy_permitted(st) {
                    r is Ok
                } else {
                    r matches Err(m) && m@ == "Ownership violation: "@ + from@
                        + " cannot be copied"@
                },
            },
    {
        let st = match self.symbol_table.get(from) {
            Some(st) => st,
            None => {
                let mut msg = String::from_str("Unknown variable: ");
                msg.append(from);
                return Err(msg);
            },
        };
        let permitted = match st.info.ownership_type {
            OwnershipType::Copied => true,
            OwnershipType::Shared => true,
            OwnershipType::Owned => type_copyable(&st.var_type),
            OwnershipType::Moved => false,
        };
        if permitted {
            Ok(())
        } else {
            let mut msg = String::from_str("Ownership violation: ");
            msg.append(from);
            msg.append(" cannot be copied");
            Err(msg)
        }
    }
}

} // verus!
