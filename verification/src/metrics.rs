//! Which processes belong to a service, and what they use together. The
//! host lists the processes of the machine; the choice among them and the
//! sums are made here.

use crate::text::{chars_of, same_span, same_text};
use vstd::prelude::*;
use vstd::string::*;

verus! {

/// How many measurements of a service are kept.
pub const HISTORY_LIMIT: usize = 60;

/// One process, as the host found it.
#[derive(Clone, Debug)]
pub struct ProcessSample {
    /// The identifier of the process.
    pub pid: u32,
    /// The name of the program that the process runs.
    pub name: String,
    /// The memory that the process uses, in bytes.
    pub memory: u64,
}

/// What a `ProcessSample` holds.
pub struct SampleView {
    pub pid: u32,
    pub name: Seq<char>,
    pub memory: u64,
}

impl View for ProcessSample {
    type V = SampleView;

    open spec fn view(&self) -> SampleView {
        SampleView { pid: self.pid, name: self.name@, memory: self.memory }
    }
}

/// The views of a list of samples, in order.
pub open spec fn samples_of(samples: Seq<ProcessSample>) -> Seq<SampleView> {
    samples.map_values(|sample: ProcessSample| sample@)
}

/// What `str::to_lowercase` makes of a text: its lowercase form, by the
/// rules of Unicode.
pub uninterp spec fn lowercase_of(text: Seq<char>) -> Seq<char>;

/// The names of the programs that run the service with the given name. Only
/// the web server and the database have any.
pub open spec fn process_names_of(service_name: Seq<char>) -> Seq<Seq<char>> {
    if service_name == "Nginx"@ {
        seq!["nginx"@, "nginx.exe"@]
    } else if service_name == "MariaDB"@ {
        seq!["mariadbd"@, "mariadbd.exe"@, "mysqld"@, "mysqld.exe"@]
    } else {
        seq![]
    }
}

/// Whether `needle` stands somewhere in `haystack`, character for character.
pub open spec fn occurs_in(needle: Seq<char>, haystack: Seq<char>) -> bool {
    exists|at: int| occurs_at(needle, haystack, at)
}

/// Whether `needle` stands in `haystack` at place `at`.
pub open spec fn occurs_at(needle: Seq<char>, haystack: Seq<char>, at: int) -> bool {
    0 <= at <= haystack.len() - needle.len() && haystack.subrange(at, at + needle.len()) == needle
}

/// Whether one of two texts holds the other.
pub open spec fn either_occurs(first: Seq<char>, second: Seq<char>) -> bool {
    occurs_in(second, first) || occurs_in(first, second)
}

/// Whether a process name and a program name go together: without regard to
/// case, one of them holds the other.
pub open spec fn names_match(process: Seq<char>, program: Seq<char>) -> bool {
    either_occurs(lowercase_of(process), lowercase_of(program))
}

/// Whether a process name goes together with one of the program names.
pub open spec fn belongs(process: Seq<char>, programs: Seq<Seq<char>>) -> bool {
    exists|k: int| 0 <= k < programs.len() && names_match(process, programs[k])
}

/// The places, among the first `upto` samples, of those that belong to the
/// programs, in order.
pub open spec fn selected(samples: Seq<SampleView>, programs: Seq<Seq<char>>, upto: int) -> Seq<
    int,
>
    decreases upto,
{
    if upto <= 0 {
        Seq::empty()
    } else {
        let before = selected(samples, programs, upto - 1);
        if belongs(samples[upto - 1].name, programs) {
            before.push(upto - 1)
        } else {
            before
        }
    }
}

/// Whether `place` is the place of a sample.
pub open spec fn in_range(samples: Seq<SampleView>, place: int) -> bool {
    0 <= place < samples.len()
}

/// The memory that the samples at the first `upto` of the given places use
/// together. A place that holds no sample adds nothing.
pub open spec fn memory_at(samples: Seq<SampleView>, places: Seq<int>, upto: int) -> nat
    decreases upto,
{
    if upto <= 0 {
        0
    } else {
        memory_at(samples, places, upto - 1) + if in_range(samples, places[upto - 1]) {
            samples[places[upto - 1]].memory as nat
        } else {
            0nat
        }
    }
}

/// The process identifiers of the samples at the first `upto` of the given
/// places, in order. A place that holds no sample is passed over.
pub open spec fn pids_among(samples: Seq<SampleView>, places: Seq<int>, upto: int) -> Seq<u32>
    decreases upto,
{
    if upto <= 0 {
        Seq::empty()
    } else {
        let before = pids_among(samples, places, upto - 1);
        if in_range(samples, places[upto - 1]) {
            before.push(samples[places[upto - 1]].pid)
        } else {
            before
        }
    }
}

/// The places of a list as mathematical integers.
pub open spec fn places_of(places: Seq<usize>) -> Seq<int> {
    places.map_values(|place: usize| place as int)
}

/// How many of the oldest of `len` measurements leave so that no more than
/// `HISTORY_LIMIT` stay.
pub open spec fn excess_of(len: nat) -> nat {
    if len > HISTORY_LIMIT {
        (len - HISTORY_LIMIT) as nat
    } else {
        0
    }
}

/// Puts `text` in lowercase with `str::to_lowercase`. What comes out depends
/// on the characters of `text` alone; nothing more is claimed of it.
#[verifier::external_body]
fn lowercase(text: &str) -> (out: String)
    ensures
        out@ == lowercase_of(text@),
{
    text.to_lowercase()
}

/// The names of the programs that run the service with the given name.
pub fn process_names_for_service(service_name: &str) -> (names: Vec<&'static str>)
    ensures
        names@.map_values(|name: &'static str| name@) == process_names_of(service_name@),
{
    let mut names: Vec<&'static str> = Vec::new();
    if same_text(service_name, "Nginx") {
        names.push("nginx");
        names.push("nginx.exe");
    } else if same_text(service_name, "MariaDB") {
        names.push("mariadbd");
        names.push("mariadbd.exe");
        names.push("mysqld");
        names.push("mysqld.exe");
    }
    assert(names@.map_values(|name: &'static str| name@) =~= process_names_of(service_name@));
    names
}

/// Whether `needle` stands somewhere in `haystack`.
fn holds(haystack: &Vec<char>, needle: &Vec<char>) -> (found: bool)
    ensures
        found == occurs_in(needle@, haystack@),
{
    if needle.len() > haystack.len() {
        return false;
    }
    let last = haystack.len() - needle.len();
    let mut at: usize = 0;
    while at < last
        invariant
            needle@.len() <= haystack@.len() <= usize::MAX,
            last == haystack@.len() - needle@.len(),
            at <= last,
            forall|earlier: int| 0 <= earlier < at ==> !occurs_at(needle@, haystack@, earlier),
        decreases last - at,
    {
        if same_span(haystack, at, at + needle.len(), needle) {
            assert(occurs_at(needle@, haystack@, at as int));
            return true;
        }
        at += 1;
    }
    let found = same_span(haystack, last, haystack.len(), needle);
    assert(found == occurs_at(needle@, haystack@, last as int));
    found
}

/// Whether one of two texts holds the other, character for character.
pub fn either_holds(first: &str, second: &str) -> (found: bool)
    ensures
        found == either_occurs(first@, second@),
{
    let first = chars_of(first);
    let second = chars_of(second);
    holds(&first, &second) || holds(&second, &first)
}

/// Whether a process name and a program name go together: whether, both in
/// lowercase, one of them holds the other.
pub fn program_matches(process_name: &str, program: &str) -> (matches: bool)
    ensures
        matches == names_match(process_name@, program@),
{
    either_holds(lowercase(process_name).as_str(), lowercase(program).as_str())
}

/// Whether a process with the given name is one of the service's: whether
/// its name goes together with one of the service's program names.
pub fn is_service_process(process_name: &str, service_name: &str) -> (found: bool)
    ensures
        found == belongs(process_name@, process_names_of(service_name@)),
{
    let names = process_names_for_service(service_name);
    let ghost programs = process_names_of(service_name@);
    let mut k: usize = 0;
    while k < names.len()
        invariant
            k <= names@.len(),
            programs == process_names_of(service_name@),
            names@.map_values(|name: &'static str| name@) == programs,
            forall|j: int| 0 <= j < k ==> !names_match(process_name@, programs[j]),
        decreases names@.len() - k,
    {
        assert(programs[k as int] == names@[k as int]@);
        if program_matches(process_name, names[k]) {
            assert(programs.len() == names@.len());
            assert(0 <= k < programs.len() && names_match(process_name@, programs[k as int]));
            return true;
        }
        k += 1;
    }
    assert(programs.len() == names@.len());
    false
}

/// The places of the samples that belong to the service with the given
/// name, in the order of the samples.
pub fn select_processes(samples: &Vec<ProcessSample>, service_name: &str) -> (places: Vec<usize>)
    ensures
        places_of(places@) == selected(
            samples_of(samples@),
            process_names_of(service_name@),
            samples@.len() as int,
        ),
        forall|k: int| 0 <= k < places@.len() ==> #[trigger] places@[k] < samples@.len(),
{
    let ghost programs = process_names_of(service_name@);
    let mut places: Vec<usize> = Vec::new();
    let mut i: usize = 0;
    while i < samples.len()
        invariant
            i <= samples@.len(),
            programs == process_names_of(service_name@),
            places_of(places@) == selected(samples_of(samples@), programs, i as int),
            forall|k: int| 0 <= k < places@.len() ==> #[trigger] places@[k] < samples@.len(),
        decreases samples@.len() - i,
    {
        let ghost before = places_of(places@);
        if is_service_process(samples[i].name.as_str(), service_name) {
            places.push(i);
            assert(places_of(places@) =~= before.push(i as int));
        }
        i += 1;
    }
    places
}

/// The memory that the samples at the given places use together. A place
/// that holds no sample adds nothing; a total beyond what a `u64` holds is
/// given as `u64::MAX`.
pub fn total_memory(samples: &Vec<ProcessSample>, places: &Vec<usize>) -> (total: u64)
    ensures
        total == if memory_at(samples_of(samples@), places_of(places@), places@.len() as int)
            > u64::MAX {
            u64::MAX as nat
        } else {
            memory_at(samples_of(samples@), places_of(places@), places@.len() as int)
        },
{
    let mut total: u64 = 0;
    let mut k: usize = 0;
    while k < places.len()
        invariant
            k <= places@.len(),
            total == if memory_at(samples_of(samples@), places_of(places@), k as int) > u64::MAX {
                u64::MAX as nat
            } else {
                memory_at(samples_of(samples@), places_of(places@), k as int)
            },
        decreases places@.len() - k,
    {
        let place = places[k];
        assert(places_of(places@)[k as int] == place);
        if place < samples.len() {
            assert(samples_of(samples@)[place as int].memory == samples@[place as int].memory);
            total = total.saturating_add(samples[place].memory);
        }
        k += 1;
    }
    total
}

/// The process identifiers of the samples at the given places, in order. A
/// place that holds no sample is passed over.
pub fn pids_at(samples: &Vec<ProcessSample>, places: &Vec<usize>) -> (pids: Vec<u32>)
    ensures
        pids@ == pids_among(samples_of(samples@), places_of(places@), places@.len() as int),
{
    let mut pids: Vec<u32> = Vec::new();
    let mut k: usize = 0;
    while k < places.len()
        invariant
            k <= places@.len(),
            pids@ == pids_among(samples_of(samples@), places_of(places@), k as int),
        decreases places@.len() - k,
    {
        let place = places[k];
        assert(places_of(places@)[k as int] == place);
        if place < samples.len() {
            assert(samples_of(samples@)[place as int].pid == samples@[place as int].pid);
            pids.push(samples[place].pid);
        }
        k += 1;
    }
    pids
}

/// How many of the oldest of `len` measurements are to leave so that no more
/// than `HISTORY_LIMIT` stay.
pub fn history_excess(len: usize) -> (excess: usize)
    ensures
        excess == excess_of(len as nat),
        len - excess <= HISTORY_LIMIT,
{
    if len > HISTORY_LIMIT {
        len - HISTORY_LIMIT
    } else {
        0
    }
}

} // verus!
