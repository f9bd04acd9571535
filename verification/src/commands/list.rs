//! List: which environments are shown, and with which checks they are loaded.

use vstd::prelude::*;
use vstd::string::*;
use crate::cli::ListOptions;
use crate::metadata::{LoadMetadataConfig, Metadata, MetadataView};
use crate::symlinks::{is_listed, listed};
use crate::text::{same_text, texts};

verus! {

/// Whether an environment is among those asked for: all are if none is named.
pub open spec fn wanted(filter_names: Seq<Seq<char>>, venv_name: Seq<char>) -> bool {
    filter_names.len() == 0 || listed(filter_names, venv_name)
}

/// The names that pass `wanted`, in order.
pub open spec fn wanted_names(names: Seq<Seq<char>>, filter_names: Seq<Seq<char>>) -> Seq<
    Seq<char>,
>
    decreases names.len(),
{
    if names.len() == 0 {
        Seq::empty()
    } else if wanted(filter_names, names.last()) {
        wanted_names(names.drop_last(), filter_names).push(names.last())
    } else {
        wanted_names(names.drop_last(), filter_names)
    }
}

/// Whether a record passes the interpreter filter.
pub open spec fn python_matches(m: MetadataView, python_filter: Option<Seq<char>>) -> bool {
    python_filter is None || m.python_raw == python_filter->0
}

/// The records that pass the interpreter filter, in order.
pub open spec fn with_python(records: Seq<Metadata>, python_filter: Option<Seq<char>>) -> Seq<
    MetadataView,
>
    decreases records.len(),
{
    if records.len() == 0 {
        Seq::empty()
    } else if python_matches(records.last()@, python_filter) {
        with_python(records.drop_last(), python_filter).push(records.last()@)
    } else {
        with_python(records.drop_last(), python_filter)
    }
}

/// The records as plain values.
pub open spec fn record_views(records: Seq<Metadata>) -> Seq<MetadataView> {
    Seq::new(records.len(), |i: int| records[i]@)
}

impl ListOptions {
    /// The checks with which records are loaded for a listing: launchers
    /// always, updates unless they are skipped.
    pub fn to_metadataconfig(&self) -> (out: LoadMetadataConfig)
        ensures
            out.recheck_scripts,
            out.updates_check == !self.skip_updates,
            out.updates_prereleases == self.show_prereleases,
            out.updates_ignore_constraints == self.ignore_constraints,
    {
        LoadMetadataConfig {
            recheck_scripts: true,
            updates_check: !self.skip_updates,
            updates_prereleases: self.show_prereleases,
            updates_ignore_constraints: self.ignore_constraints,
        }
    }
}

/// The environments whose records are to be loaded: of the directories
/// found, those that were asked for.
pub fn read_from_folder_filtered(venv_names: &Vec<String>, filter_names: &Vec<String>) -> (out: Vec<
    String,
>)
    ensures
        texts(out@) == wanted_names(texts(venv_names@), texts(filter_names@)),
{
    let mut out: Vec<String> = Vec::new();
    let mut i: usize = 0;
    let ghost all = texts(venv_names@);
    assert(texts(out@) =~= wanted_names(all.take(0), texts(filter_names@)));
    while i < venv_names.len()
        invariant
            i <= venv_names.len(),
            all == texts(venv_names@),
            texts(out@) == wanted_names(all.take(i as int), texts(filter_names@)),
        decreases venv_names.len() - i,
    {
        proof {
            let next = all.take(i + 1);
            assert(next.drop_last() == all.take(i as int));
            assert(next.last() == venv_names@[i as int]@);
        }
        if filter_names.len() == 0 || is_listed(filter_names, venv_names[i].as_str()) {
            let ghost before = texts(out@);
            out.push(venv_names[i].clone());
            assert(texts(out@) =~= before.push(venv_names@[i as int]@));
        }
        i += 1;
    }
    assert(all.take(i as int) == all);
    out
}

/// The records to show: all that were loaded, or with an interpreter filter
/// those that were made with that interpreter.
pub fn list_packages(loaded: Vec<Metadata>, python_filter: Option<&str>) -> (out: Vec<Metadata>)
    ensures
        record_views(out@) == with_python(
            loaded@,
            match python_filter {
                Some(p) => Some(p@),
                None => None,
            },
        ),
{
    let ghost all = loaded@;
    let ghost want: Option<Seq<char>> = match python_filter {
        Some(p) => Some(p@),
        None => None,
    };
    let mut out: Vec<Metadata> = Vec::new();
    assert(record_views(out@) =~= with_python(all.take(0), want));
    for record in it: loaded
        invariant
            it.seq() == all,
            want == (match python_filter {
                Some(p) => Some(p@),
                None => None,
            }),
            record_views(out@) == with_python(all.take(it.index() as int), want),
    {
        proof {
            let next = all.take(it.index() + 1);
            assert(next.drop_last() == all.take(it.index() as int));
            assert(next.last() == all[it.index() as int]);
        }
        let keep = match python_filter {
            Some(p) => same_text(record.python_raw.as_str(), p),
            None => true,
        };
        if keep {
            let ghost before = record_views(out@);
            out.push(record);
            assert(record_views(out@) =~= before.push(record@));
        }
    }
    assert(all.take(all.len() as int) == all);
    out
}

/// Without an interpreter filter every loaded record is shown.
pub proof fn unfiltered_list_is_whole(records: Seq<Metadata>)
    ensures
        with_python(records, None) == record_views(records),
    decreases records.len(),
{
    if records.len() > 0 {
        unfiltered_list_is_whole(records.drop_last());
        assert(record_views(records) =~= record_views(records.drop_last()).push(records.last()@));
    } else {
        assert(record_views(records) =~= Seq::<MetadataView>::empty());
    }
}

} // verus!
