//! Reading the records of a configuration into the entries of a profile.
//!
//! The key `command` says what a record is: `env` for a mutation, with the
//! keys `key`, `value` and `mode`, or `source` for a reference to another
//! profile, with the key `env`.

use vstd::prelude::*;
use crate::error::ProfileError;
use crate::mutation::{get_mod_type_by_str, mod_type_of};
use crate::record::Record;
use crate::script::{EntryModel, IncludeRecord, MutationRecord, ProfileEntry};
use crate::text::same_text;

verus! {

/// The entry that the record `fields` describes, or why it describes none. A
/// missing key is reported before an unknown mode.
pub open spec fn entry_of(fields: Map<Seq<char>, Seq<char>>) -> Result<EntryModel, ProfileError> {
    if !fields.contains_key("command"@) {
        Err(ProfileError::MissingField)
    } else if fields["command"@] == "env"@ {
        if !fields.contains_key("key"@) || !fields.contains_key("value"@) || !fields.contains_key(
            "mode"@,
        ) {
            Err(ProfileError::MissingField)
        } else {
            match mod_type_of(fields["mode"@]) {
                Some(kind) => Ok(
                    EntryModel::Mutation { name: fields["key"@], value: fields["value"@], kind },
                ),
                None => Err(ProfileError::UnknownMutationKind),
            }
        }
    } else if fields["command"@] == "source"@ {
        if !fields.contains_key("env"@) {
            Err(ProfileError::MissingField)
        } else {
            Ok(EntryModel::Include { profile: fields["env"@] })
        }
    } else {
        Err(ProfileError::UnknownCommand)
    }
}

/// The entries that `records` describe, in their order, or the reason why
/// the first record that describes none does not.
pub open spec fn entries_of(records: Seq<Map<Seq<char>, Seq<char>>>) -> Result<
    Seq<EntryModel>,
    ProfileError,
>
    decreases records.len(),
{
    if records.len() == 0 {
        Ok(Seq::empty())
    } else {
        match entries_of(records.drop_last()) {
            Err(error) => Err(error),
            Ok(entries) => match entry_of(records.last()) {
                Ok(entry) => Ok(entries.push(entry)),
                Err(error) => Err(error),
            },
        }
    }
}

/// Once a part of the records is refused, the whole is refused for the same
/// reason.
proof fn lemma_entries_of_prefix(records: Seq<Map<Seq<char>, Seq<char>>>, k: int)
    requires
        0 <= k <= records.len(),
        entries_of(records.take(k)) is Err,
    ensures
        entries_of(records) == entries_of(records.take(k)),
    decreases records.len() - k,
{
    if k == records.len() {
        assert(records.take(k) =~= records);
    } else {
        assert(records.take(k + 1).drop_last() =~= records.take(k));
        lemma_entries_of_prefix(records, k + 1);
    }
}

/// Reads one record of the configuration.
///
/// Fails with `MissingField` where the record has no `command`, or lacks a
/// key that its command requires; with `UnknownMutationKind` where a complete
/// `env` record has an unknown `mode`; with `UnknownCommand` where the
/// command is neither `env` nor `source`.
pub fn parse_entry(fields: &Record) -> (result: Result<ProfileEntry, ProfileError>)
    ensures
        match result {
            Ok(entry) => entry_of(fields@) == Ok::<EntryModel, ProfileError>(entry@),
            Err(error) => entry_of(fields@) == Err::<EntryModel, ProfileError>(error),
        },
{
    let command = match fields.get("command") {
        Some(text) => text,
        None => {
            return Err(ProfileError::MissingField);
        },
    };
    if same_text(command.as_str(), "env") {
        let key = match fields.get("key") {
            Some(text) => text,
            None => {
                return Err(ProfileError::MissingField);
            },
        };
        let value = match fields.get("value") {
            Some(text) => text,
            None => {
                return Err(ProfileError::MissingField);
            },
        };
        let mode = match fields.get("mode") {
            Some(text) => text,
            None => {
                return Err(ProfileError::MissingField);
            },
        };
        match get_mod_type_by_str(mode.as_str()) {
            Ok(kind) => Ok(
                ProfileEntry::Mutation(
                    MutationRecord { variable_name: key.clone(), raw_value: value.clone(), kind },
                ),
            ),
            Err(error) => Err(error),
        }
    } else if same_text(command.as_str(), "source") {
        match fields.get("env") {
            Some(profile) => Ok(
                ProfileEntry::Include(IncludeRecord { profile_name: profile.clone() }),
            ),
            None => Err(ProfileError::MissingField),
        }
    } else {
        Err(ProfileError::UnknownCommand)
    }
}

/// Reads the records of one profile, in their order.
///
/// Fails where a record is refused, with the error of the first such record.
pub fn parse_profile(records: &Vec<Record>) -> (result: Result<Vec<ProfileEntry>, ProfileError>)
    ensures
        match result {
            Ok(entries) => entries_of(records.deep_view()) == Ok::<Seq<EntryModel>, ProfileError>(
                entries.deep_view(),
            ),
            Err(error) => entries_of(records.deep_view()) == Err::<Seq<EntryModel>, ProfileError>(
                error,
            ),
        },
{
    let ghost all = records.deep_view();
    let mut entries: Vec<ProfileEntry> = Vec::new();
    let mut i: usize = 0;
    assert(all.take(0) =~= Seq::<Map<Seq<char>, Seq<char>>>::empty());
    assert(entries.deep_view() =~= Seq::<EntryModel>::empty());
    while i < records.len()
        invariant
            i <= records.len(),
            all == records.deep_view(),
            entries_of(all.take(i as int)) == Ok::<Seq<EntryModel>, ProfileError>(
                entries.deep_view(),
            ),
        decreases records.len() - i,
    {
        let ghost before = entries.deep_view();
        proof {
            assert(all.take(i + 1).drop_last() =~= all.take(i as int));
            assert(all.take(i + 1).last() == records[i as int]@);
        }
        match parse_entry(&records[i]) {
            Ok(entry) => {
                entries.push(entry);
                assert(entries.deep_view() =~= before.push(entry@));
            },
            Err(error) => {
                proof {
                    lemma_entries_of_prefix(all, i + 1);
                }
                return Err(error);
            },
        }
        i += 1;
    }
    assert(all.take(i as int) =~= all);
    Ok(entries)
}

} // verus!
