//! Decides whether a snapshot of the process table holds the watched program.
//!
//! A process counts when its name equals the configured name and every
//! required argument occurs, as a whole element, somewhere in its command
//! line. Order and repetition of arguments play no part.

use crate::config::{texts, ProcessSpec, ProcessSpecView};
use vstd::prelude::*;

verus! {

/// One running process: its name and the arguments it was started with.
#[derive(Debug)]
pub struct ProcessInfo {
    pub name: String,
    pub args: Vec<String>,
}

/// What a [`ProcessInfo`] says, as plain sequences.
pub struct ProcessInfoView {
    pub name: Seq<char>,
    pub args: Seq<Seq<char>>,
}

impl View for ProcessInfo {
    type V = ProcessInfoView;

    open spec fn view(&self) -> ProcessInfoView {
        ProcessInfoView { name: self.name@, args: texts(self.args@) }
    }
}

/// The processes of a snapshot, in order, as plain values.
pub open spec fn snapshot(processes: Seq<ProcessInfo>) -> Seq<ProcessInfoView> {
    processes.map_values(|p: ProcessInfo| p@)
}

/// The process carries the wanted name, and the required arguments form a
/// subset of its own.
pub open spec fn satisfies(process: ProcessInfoView, wanted: ProcessSpecView) -> bool {
    &&& process.name == wanted.name
    &&& wanted.required_arguments.to_set().subset_of(process.args.to_set())
}

/// Some process of the snapshot is one that `wanted` describes.
pub open spec fn any_satisfies(processes: Seq<ProcessInfoView>, wanted: ProcessSpecView) -> bool {
    exists|i: int| 0 <= i < processes.len() && satisfies(#[trigger] processes[i], wanted)
}

/// The required arguments form a subset of the given ones exactly when each
/// of them occurs, as a whole element, among the given ones.
pub proof fn lemma_subset_means_each_occurs(required: Seq<Seq<char>>, given: Seq<Seq<char>>)
    ensures
        required.to_set().subset_of(given.to_set()) <==> forall|j: int|
            0 <= j < required.len() ==> given.contains(#[trigger] required[j]),
{
    if required.to_set().subset_of(given.to_set()) {
        assert forall|j: int| 0 <= j < required.len() implies given.contains(
            #[trigger] required[j],
        ) by {
            assert(required.to_set().contains(required[j]));
        }
    }
    if forall|j: int| 0 <= j < required.len() ==> given.contains(#[trigger] required[j]) {
        assert forall|a: Seq<char>| required.to_set().contains(a) implies given.to_set().contains(
            a,
        ) by {
            let j = choose|j: int| 0 <= j < required.len() && required[j] == a;
            assert(given.contains(required[j]));
        }
    }
}

/// Where no arguments are required, the name decides alone.
pub proof fn lemma_name_suffices_without_arguments(
    process: ProcessInfoView,
    wanted: ProcessSpecView,
)
    requires
        wanted.required_arguments.len() == 0,
    ensures
        satisfies(process, wanted) == (process.name == wanted.name),
{
    lemma_subset_means_each_occurs(wanted.required_arguments, process.args);
}

/// A process that was started without arguments satisfies no description
/// that requires one.
pub proof fn lemma_bare_process_lacks_required_arguments(
    process: ProcessInfoView,
    wanted: ProcessSpecView,
)
    requires
        process.args.len() == 0,
        wanted.required_arguments.len() > 0,
    ensures
        !satisfies(process, wanted),
{
    lemma_subset_means_each_occurs(wanted.required_arguments, process.args);
    assert(!process.args.contains(wanted.required_arguments[0]));
}

/// Neither the order of a process's arguments nor their repetition plays a
/// part: two processes of one name whose arguments form the same set satisfy
/// the same descriptions.
pub proof fn lemma_only_the_set_of_arguments_counts(
    first: ProcessInfoView,
    second: ProcessInfoView,
    wanted: ProcessSpecView,
)
    requires
        first.name == second.name,
        first.args.to_set() == second.args.to_set(),
    ensures
        satisfies(first, wanted) == satisfies(second, wanted),
{
}

impl ProcessInfo {
    /// Whether `argument` is one of the process's arguments, as a whole
    /// element.
    pub fn has_argument(&self, argument: &String) -> (found: bool)
        ensures
            found == self@.args.contains(argument@),
    {
        let mut i: usize = 0;
        while i < self.args.len()
            invariant
                i <= self.args.len(),
                forall|k: int| 0 <= k < i ==> self@.args[k] != argument@,
            decreases self.args.len() - i,
        {
            if self.args[i] == *argument {
                assert(self@.args[i as int] == argument@);
                return true;
            }
            i += 1;
        }
        false
    }

    /// Whether the process is one that `wanted` describes.
    pub fn satisfies(&self, wanted: &ProcessSpec) -> (fits: bool)
        ensures
            fits == satisfies(self@, wanted@),
    {
        if self.name != *wanted.name() {
            return false;
        }
        let required = wanted.required_arguments();
        let mut j: usize = 0;
        while j < required.len()
            invariant
                j <= required.len(),
                texts(required@) == wanted@.required_arguments,
                forall|k: int| 0 <= k < j ==> self@.args.contains(#[trigger] texts(required@)[k]),
            decreases required.len() - j,
        {
            if !self.has_argument(&required[j]) {
                proof {
                    assert(texts(required@)[j as int] == required[j as int]@);
                    lemma_subset_means_each_occurs(wanted@.required_arguments, self@.args);
                }
                return false;
            }
            j += 1;
        }
        proof {
            lemma_subset_means_each_occurs(wanted@.required_arguments, self@.args);
        }
        true
    }
}

/// Whether the watched program is present in a snapshot of the process table.
///
/// `true` exactly when at least one process has the configured name and all
/// the required arguments. With no required arguments the name decides alone.
pub fn matches(process_list: &Vec<ProcessInfo>, spec: &ProcessSpec) -> (present: bool)
    ensures
        present == any_satisfies(snapshot(process_list@), spec@),
{
    let mut i: usize = 0;
    while i < process_list.len()
        invariant
            i <= process_list.len(),
            forall|k: int| 0 <= k < i ==> !satisfies(#[trigger] snapshot(process_list@)[k], spec@),
        decreases process_list.len() - i,
    {
        if process_list[i].satisfies(spec) {
            assert(snapshot(process_list@)[i as int] == process_list[i as int]@);
            return true;
        }
        i += 1;
    }
    false
}

} // verus!
