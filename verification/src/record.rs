//! Immutable event records and the staged builder that assembles them.
//!
//! A `Record` describes one log occurrence: its level, a routing target,
//! optional source provenance, the message text, and an ordered sequence of
//! structured key-value fields. Records are built once, handed to a backend,
//! and never mutated.

use vstd::prelude::*;
use crate::level::Level;

verus! {

/// Mathematical image of a `Record`: every text field as a sequence of
/// characters.
pub struct RecordView {
    pub level: Level,
    pub target: Seq<char>,
    pub module: Option<Seq<char>>,
    pub file: Option<Seq<char>>,
    pub line: Option<u32>,
    pub message: Seq<char>,
    pub kvs: Seq<(Seq<char>, Seq<char>)>,
}

/// One immutable log occurrence, constructed fresh per accepted call and
/// consumed by whichever backend is registered.
pub struct Record {
    level: Level,
    target: String,
    module: Option<String>,
    file: Option<String>,
    line: Option<u32>,
    message: String,
    kvs: Vec<(String, String)>,
}

impl View for Record {
    type V = RecordView;

    closed spec fn view(&self) -> RecordView {
        RecordView {
            level: self.level,
            target: self.target@,
            module: match self.module {
                Some(p) => Some(p@),
                None => None,
            },
            file: match self.file {
                Some(f) => Some(f@),
                None => None,
            },
            line: self.line,
            message: self.message@,
            kvs: self.kvs.deep_view(),
        }
    }
}

impl Record {
    /// A builder whose every field starts at its default.
    pub fn builder() -> (b: RecordBuilder)
        ensures
            b@ == (RecordView {
                level: Level::Info,
                target: Seq::<char>::empty(),
                module: None,
                file: None,
                line: None,
                message: Seq::<char>::empty(),
                kvs: Seq::<(Seq<char>, Seq<char>)>::empty(),
            }),
    {
        RecordBuilder::new()
    }

    /// The severity of this event.
    pub fn level(&self) -> (l: Level)
        ensures
            l == self@.level,
    {
        self.level
    }

    /// The routing label of this event.
    pub fn target(&self) -> (t: &str)
        ensures
            t@ == self@.target,
    {
        self.target.as_str()
    }

    /// The module path of the call site, when provenance was recorded.
    pub fn module(&self) -> (p: Option<&str>)
        ensures
            match p {
                Some(s) => self@.module == Some(s@),
                None => self@.module is None,
            },
    {
        match &self.module {
            Some(s) => Some(s.as_str()),
            None => None,
        }
    }

    /// The source file of the call site, when provenance was recorded.
    pub fn file(&self) -> (f: Option<&str>)
        ensures
            match f {
                Some(s) => self@.file == Some(s@),
                None => self@.file is None,
            },
    {
        match &self.file {
            Some(s) => Some(s.as_str()),
            None => None,
        }
    }

    /// The source line of the call site, when provenance was recorded.
    pub fn line(&self) -> (l: Option<u32>)
        ensures
            l == self@.line,
    {
        self.line
    }

    /// The message text of this event.
    pub fn message(&self) -> (m: &str)
        ensures
            m@ == self@.message,
    {
        self.message.as_str()
    }

    /// The structured key-value fields of this event, in the order the
    /// caller supplied them.
    pub fn key_values(&self) -> (kvs: &Vec<(String, String)>)
        ensures
            kvs.deep_view() == self@.kvs,
    {
        &self.kvs
    }
}

/// Staged builder for a `Record`: fields accumulate one by one and
/// `build` produces the finished, immutable record.
pub struct RecordBuilder {
    record: Record,
}

impl View for RecordBuilder {
    type V = RecordView;

    closed spec fn view(&self) -> RecordView {
        self.record@
    }
}

impl RecordBuilder {
    /// A builder whose every field starts at its default: level `Info`,
    /// empty target and message, no provenance, no fields.
    pub fn new() -> (b: RecordBuilder)
        ensures
            b@ == (RecordView {
                level: Level::Info,
                target: Seq::<char>::empty(),
                module: None,
                file: None,
                line: None,
                message: Seq::<char>::empty(),
                kvs: Seq::<(Seq<char>, Seq<char>)>::empty(),
            }),
    {
        let b = RecordBuilder {
            record: Record {
                level: Level::Info,
                target: String::new(),
                module: None,
                file: None,
                line: None,
                message: String::new(),
                kvs: Vec::new(),
            },
        };
        proof {
            assert(b@.kvs =~= Seq::<(Seq<char>, Seq<char>)>::empty());
        }
        b
    }

    /// Set the severity.
    pub fn level(self, level: Level) -> (b: RecordBuilder)
        ensures
            b@ == (RecordView { level, ..self@ }),
    {
        RecordBuilder { record: Record { level, ..self.record } }
    }

    /// Set the routing target.
    pub fn target(self, target: &str) -> (b: RecordBuilder)
        ensures
            b@ == (RecordView { target: target@, ..self@ }),
    {
        RecordBuilder { record: Record { target: target.to_owned(), ..self.record } }
    }

    /// Set or clear the module path of the call site.
    pub fn module(self, module: Option<&str>) -> (b: RecordBuilder)
        ensures
            b@ == (RecordView {
                module: match module {
                    Some(p) => Some(p@),
                    None => None,
                },
                ..self@
            }),
    {
        let module = match module {
            Some(p) => Some(p.to_owned()),
            None => None,
        };
        RecordBuilder { record: Record { module, ..self.record } }
    }

    /// Set or clear the source file of the call site.
    pub fn file(self, file: Option<&str>) -> (b: RecordBuilder)
        ensures
            b@ == (RecordView {
                file: match file {
                    Some(f) => Some(f@),
                    None => None,
                },
                ..self@
            }),
    {
        let file = match file {
            Some(f) => Some(f.to_owned()),
            None => None,
        };
        RecordBuilder { record: Record { file, ..self.record } }
    }

    /// Set or clear the source line of the call site.
    pub fn line(self, line: Option<u32>) -> (b: RecordBuilder)
        ensures
            b@ == (RecordView { line, ..self@ }),
    {
        RecordBuilder { record: Record { line, ..self.record } }
    }

    /// Set the message text.
    pub fn message(self, message: &str) -> (b: RecordBuilder)
        ensures
            b@ == (RecordView { message: message@, ..self@ }),
    {
        RecordBuilder { record: Record { message: message.to_owned(), ..self.record } }
    }

    /// Set the structured key-value fields.
    pub fn key_values(self, kvs: Vec<(String, String)>) -> (b: RecordBuilder)
        ensures
            b@ == (RecordView { kvs: kvs.deep_view(), ..self@ }),
    {
        RecordBuilder { record: Record { kvs, ..self.record } }
    }

    /// Finish: the record holds exactly the accumulated fields.
    pub fn build(self) -> (r: Record)
        ensures
            r@ == self@,
    {
        self.record
    }
}

} // verus!
