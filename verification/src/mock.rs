//! A mock harness: drop-in substitutes for the logger, the context, the
//! session and the session factory, behaviorally equivalent to the real host
//! collaborators for everything the trait contracts state, so processors can
//! be exercised deterministically without a host process.

use vstd::prelude::*;
use crate::api::{FlowFile, Logger, ProcessContext, ProcessSession, ProcessSessionFactory};
use crate::level::LogLevel;
use crate::text::str_eq;

verus! {

/// The configured values as a map, later entries overriding earlier ones.
pub open spec fn entries_map(entries: Seq<(String, String)>) -> Map<Seq<char>, Seq<char>>
    decreases entries.len(),
{
    if entries.len() == 0 {
        Map::empty()
    } else {
        entries_map(entries.drop_last()).insert(entries.last().0@, entries.last().1@)
    }
}

/// A property configuration for the mock context: name-value pairs, where
/// the latest entry for a name wins.
pub struct PropertyStore {
    pub entries: Vec<(String, String)>,
}

impl PropertyStore {
    /// The configured values as a map.
    pub open spec fn as_map(&self) -> Map<Seq<char>, Seq<char>> {
        entries_map(self.entries@)
    }

    /// An empty configuration.
    pub fn new() -> (r: Self)
        ensures
            r.as_map() == Map::<Seq<char>, Seq<char>>::empty(),
    {
        PropertyStore { entries: Vec::new() }
    }

    /// Configures a value for a name, replacing any earlier value.
    pub fn insert(&mut self, name: String, value: String)
        ensures
            final(self).as_map() == old(self).as_map().insert(name@, value@),
    {
        self.entries.push((name, value));
        proof {
            assert(final(self).entries@.drop_last() =~= old(self).entries@);
        }
    }

    /// The configured value for a name, or `None` where none was configured.
    pub fn get(&self, name: &str) -> (r: Option<String>)
        ensures
            match r {
                Some(v) => self.as_map().contains_key(name@) && v@ == self.as_map()[name@],
                None => !self.as_map().contains_key(name@),
            },
    {
        let mut i: usize = self.entries.len();
        while i > 0
            invariant
                0 <= i <= self.entries.len(),
                forall|k: int| i <= k < self.entries.len() ==> self.entries@[k].0@ != name@,
            decreases i,
        {
            i -= 1;
            if str_eq(self.entries[i].0.as_str(), name) {
                proof {
                    lemma_entries_map_last_match(self.entries@, i as int, name@);
                }
                return Some(self.entries[i].1.clone());
            }
        }
        proof {
            lemma_entries_map_no_match(self.entries@, name@);
        }
        None
    }
}

/// Where an entry matches a name and no later entry does, the map holds
/// exactly that entry's value for the name.
proof fn lemma_entries_map_last_match(entries: Seq<(String, String)>, j: int, name: Seq<char>)
    requires
        0 <= j < entries.len(),
        entries[j].0@ == name,
        forall|l: int| j < l < entries.len() ==> entries[l].0@ != name,
    ensures
        entries_map(entries).contains_key(name),
        entries_map(entries)[name] == entries[j].1@,
    decreases entries.len(),
{
    if j == entries.len() - 1 {
    } else {
        assert(entries.drop_last()[j] == entries[j]);
        lemma_entries_map_last_match(entries.drop_last(), j, name);
    }
}

/// Where no entry matches a name, the map holds nothing for it.
proof fn lemma_entries_map_no_match(entries: Seq<(String, String)>, name: Seq<char>)
    requires
        forall|l: int| 0 <= l < entries.len() ==> entries[l].0@ != name,
    ensures
        !entries_map(entries).contains_key(name),
    decreases entries.len(),
{
    if entries.len() > 0 {
        lemma_entries_map_no_match(entries.drop_last(), name);
    }
}

/// A flow file held in memory: its content is carried in the handle itself.
pub struct MockFlowFile {
    pub content: String,
}

impl MockFlowFile {
    /// A fresh flow file with empty content.
    pub fn new() -> (r: Self)
        ensures
            r.content@ == Seq::<char>::empty(),
    {
        MockFlowFile { content: String::new() }
    }
}

impl FlowFile for MockFlowFile {
    open spec fn content(&self) -> Seq<char> {
        self.content@
    }
}

/// A logger that keeps every record it is handed, in order.
pub struct MockLogger {
    pub messages: Vec<(LogLevel, String)>,
}

impl MockLogger {
    /// A logger with no records yet.
    pub fn new() -> (r: Self)
        ensures
            r.records() == Seq::<(LogLevel, Seq<char>)>::empty(),
    {
        let r = MockLogger { messages: Vec::new() };
        proof {
            assert(r.records() =~= Seq::<(LogLevel, Seq<char>)>::empty());
        }
        r
    }

    /// Appends one record.
    fn push_record(&mut self, level: LogLevel, message: &str)
        ensures
            final(self).records() == old(self).records().push((level, message@)),
    {
        self.messages.push((level, message.to_owned()));
        proof {
            assert(final(self).records() =~= old(self).records().push((level, message@)));
        }
    }
}

impl Logger for MockLogger {
    open spec fn records(&self) -> Seq<(LogLevel, Seq<char>)> {
        self.messages@.map_values(|m: (LogLevel, String)| (m.0, m.1@))
    }

    fn log(&mut self, level: LogLevel, message: &str) {
        self.push_record(level, message);
    }

    fn trace(&mut self, message: &str) {
        self.push_record(LogLevel::Trace, message);
    }

    fn debug(&mut self, message: &str) {
        self.push_record(LogLevel::Debug, message);
    }

    fn info(&mut self, message: &str) {
        self.push_record(LogLevel::Info, message);
    }

    fn warn(&mut self, message: &str) {
        self.push_record(LogLevel::Warn, message);
    }

    fn error(&mut self, message: &str) {
        self.push_record(LogLevel::Error, message);
    }
}

/// A context backed by a plain property configuration.
pub struct MockProcessContext {
    pub properties: PropertyStore,
}

impl MockProcessContext {
    /// A context with nothing configured.
    pub fn new() -> (r: Self)
        ensures
            r.configured() == Map::<Seq<char>, Seq<char>>::empty(),
    {
        MockProcessContext { properties: PropertyStore::new() }
    }
}

impl ProcessContext for MockProcessContext {
    type FlowFileImpl = MockFlowFile;

    open spec fn configured(&self) -> Map<Seq<char>, Seq<char>> {
        self.properties.as_map()
    }

    fn get_property(&self, name: &str, _flow_file: Option<&MockFlowFile>) -> (r: Option<String>) {
        self.properties.get(name)
    }
}

/// The first flow file routed to a name, by walking the records in order.
pub open spec fn spec_first_for(records: Seq<(Seq<char>, Seq<char>)>, name: Seq<char>) -> Option<
    Seq<char>,
>
    decreases records.len(),
{
    if records.len() == 0 {
        None
    } else if records[0].0 == name {
        Some(records[0].1)
    } else {
        spec_first_for(records.drop_first(), name)
    }
}

/// The flow files a mock session has routed, as pairs of relationship name
/// and flow file, in transfer order.
pub struct TransferredFlowFiles {
    pub entries: Vec<(String, MockFlowFile)>,
}

impl TransferredFlowFiles {
    /// The relationship name and content of each routed flow file, in order.
    pub open spec fn records(&self) -> Seq<(Seq<char>, Seq<char>)> {
        self.entries@.map_values(|e: (String, MockFlowFile)| (e.0@, e.1.content@))
    }

    /// No flow file routed yet.
    pub fn new() -> (r: Self)
        ensures
            r.records() == Seq::<(Seq<char>, Seq<char>)>::empty(),
    {
        let r = TransferredFlowFiles { entries: Vec::new() };
        proof {
            assert(r.records() =~= Seq::<(Seq<char>, Seq<char>)>::empty());
        }
        r
    }

    /// Appends one routed flow file.
    pub fn push(&mut self, relationship_name: String, flow_file: MockFlowFile)
        ensures
            final(self).records() == old(self).records().push(
                (relationship_name@, flow_file.content@),
            ),
    {
        self.entries.push((relationship_name, flow_file));
        proof {
            assert(final(self).records() =~= old(self).records().push(
                (relationship_name@, flow_file.content@),
            ));
        }
    }

    /// The first flow file routed to the given relationship name, or `None`
    /// where none was.
    pub fn get(&self, relationship_name: &str) -> (r: Option<&MockFlowFile>)
        ensures
            match r {
                Some(ff) => spec_first_for(self.records(), relationship_name@) == Some(
                    ff.content@,
                ),
                None => spec_first_for(self.records(), relationship_name@) is None,
            },
    {
        let ghost all = self.records();
        proof {
            assert(all.subrange(0, all.len() as int) =~= all);
        }
        let mut i: usize = 0;
        while i < self.entries.len()
            invariant
                all == self.records(),
                0 <= i <= self.entries.len(),
                spec_first_for(all, relationship_name@) == spec_first_for(
                    all.subrange(i as int, all.len() as int),
                    relationship_name@,
                ),
            decreases self.entries.len() - i,
        {
            proof {
                assert(all.subrange(i as int, all.len() as int).drop_first() =~= all.subrange(
                    i as int + 1,
                    all.len() as int,
                ));
            }
            if str_eq(self.entries[i].0.as_str(), relationship_name) {
                assert(all.subrange(i as int, all.len() as int)[0] == all[i as int]);
                return Some(&self.entries[i].1);
            }
            i += 1;
        }
        None
    }
}

/// A session backed by in-memory queues: the input flow files still to be
/// obtained, in arrival order, and the flow files routed so far.
pub struct MockProcessSession {
    pub input_flow_files: Vec<MockFlowFile>,
    pub transferred_flow_files: TransferredFlowFiles,
}

impl MockProcessSession {
    /// A session with no queued input and nothing routed.
    pub fn new() -> (r: Self)
        ensures
            r.queued() == Seq::<Seq<char>>::empty(),
            r.transferred() == Seq::<(Seq<char>, Seq<char>)>::empty(),
    {
        let r = MockProcessSession {
            input_flow_files: Vec::new(),
            transferred_flow_files: TransferredFlowFiles::new(),
        };
        proof {
            assert(r.queued() =~= Seq::<Seq<char>>::empty());
        }
        r
    }
}

impl ProcessSession for MockProcessSession {
    type FlowFileImpl = MockFlowFile;

    open spec fn queued(&self) -> Seq<Seq<char>> {
        self.input_flow_files@.map_values(|f: MockFlowFile| f.content@)
    }

    open spec fn transferred(&self) -> Seq<(Seq<char>, Seq<char>)> {
        self.transferred_flow_files.records()
    }

    fn get(&mut self) -> (r: Option<MockFlowFile>) {
        if self.input_flow_files.len() == 0 {
            None
        } else {
            let ff = self.input_flow_files.remove(0);
            proof {
                assert(final(self).queued() =~= old(self).queued().drop_first());
            }
            Some(ff)
        }
    }

    /// The mock store never runs out: `create` always succeeds.
    fn create(&mut self) -> (r: Option<MockFlowFile>)
        ensures
            r is Some,
    {
        Some(MockFlowFile::new())
    }

    fn read(&self, flow_file: &MockFlowFile) -> (r: Option<String>) {
        Some(flow_file.content.clone())
    }

    fn write(&mut self, flow_file: &mut MockFlowFile, content: &str) {
        flow_file.content = content.to_owned();
    }

    fn transfer(&mut self, flow_file: MockFlowFile, relationship_name: &str) {
        self.transferred_flow_files.push(relationship_name.to_owned(), flow_file);
    }
}

/// A factory handing out fresh mock sessions, one per call.
pub struct MockProcessSessionFactory {}

impl ProcessSessionFactory for MockProcessSessionFactory {
    type SessionImpl = MockProcessSession;

    /// The mock factory always has a session available.
    fn create_session(&mut self) -> (r: Option<MockProcessSession>)
        ensures
            r is Some,
            match r {
                Some(session) => session.queued() == Seq::<Seq<char>>::empty(),
                None => true,
            },
    {
        Some(MockProcessSession::new())
    }
}

} // verus!
