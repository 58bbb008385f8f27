//! Outputs of the compositor: how their attributes are assembled from the
//! events that announce them, and how a caller's identifier picks one.

use crate::types::{CapturerError, ErrorView, IdentifierView, OutputIdentifier};
use vstd::prelude::*;
use vstd::string::*;

verus! {

/// The key under which the engine knows one output of the compositor.
pub type OutputId = u32;

/// The current mode of an output: its size in pixels and its refresh rate in
/// thousandths of a hertz.
#[derive(Debug, Clone, Copy, PartialEq, Eq, Structural)]
pub struct OutputMode {
    pub width: i32,
    pub height: i32,
    pub refresh: i32,
}

/// The attributes of an output whose announcement is complete.
#[derive(Debug, Clone, PartialEq, Eq)]
pub struct OutputMetadata {
    pub name: String,
    pub description: Option<String>,
    pub make: String,
    pub model: String,
    pub mode: OutputMode,
    pub scale: i32,
}

/// The attributes of an output as far as they have arrived.
#[derive(Debug, Clone, PartialEq, Eq)]
pub struct WlOutputMetadataPartial {
    pub name: Option<String>,
    pub description: Option<String>,
    pub make: String,
    pub model: String,
    pub mode: Option<OutputMode>,
    pub scale: Option<i32>,
}

/// The attributes of an output, complete or still arriving.
#[derive(Debug, Clone, PartialEq, Eq)]
pub enum OutputMetadataVariant {
    Partial(WlOutputMetadataPartial),
    Complete(OutputMetadata),
}

/// The mathematical value of an output's attributes. A complete record is
/// one that `complete` marks; in it name, mode and scale are present.
pub struct MetadataView {
    pub complete: bool,
    pub name: Option<Seq<char>>,
    pub description: Option<Seq<char>>,
    pub make: Seq<char>,
    pub model: Seq<char>,
    pub mode: Option<OutputMode>,
    pub scale: Option<i32>,
}

/// The view of an optional string.
pub open spec fn text_view(text: Option<String>) -> Option<Seq<char>> {
    match text {
        Some(s) => Some(s@),
        None => None,
    }
}

impl View for WlOutputMetadataPartial {
    type V = MetadataView;

    open spec fn view(&self) -> MetadataView {
        MetadataView {
            complete: false,
            name: text_view(self.name),
            description: text_view(self.description),
            make: self.make@,
            model: self.model@,
            mode: self.mode,
            scale: self.scale,
        }
    }
}

impl View for OutputMetadata {
    type V = MetadataView;

    open spec fn view(&self) -> MetadataView {
        MetadataView {
            complete: true,
            name: Some(self.name@),
            description: text_view(self.description),
            make: self.make@,
            model: self.model@,
            mode: Some(self.mode),
            scale: Some(self.scale),
        }
    }
}

impl View for OutputMetadataVariant {
    type V = MetadataView;

    open spec fn view(&self) -> MetadataView {
        match *self {
            OutputMetadataVariant::Partial(partial) => partial@,
            OutputMetadataVariant::Complete(complete) => complete@,
        }
    }
}

/// One event of an output's announcement.
#[derive(Debug, Clone, PartialEq, Eq)]
pub enum OutputEvent {
    Name(String),
    Description(String),
    Geometry { make: String, model: String },
    Mode { width: i32, height: i32, refresh: i32 },
    Scale(i32),
    /// Ends the announcement: the attributes sent so far belong together.
    Done,
}

/// The mathematical value of an [`OutputEvent`].
pub enum OutputEventView {
    Name(Seq<char>),
    Description(Seq<char>),
    Geometry { make: Seq<char>, model: Seq<char> },
    Mode { width: i32, height: i32, refresh: i32 },
    Scale(i32),
    Done,
}

impl View for OutputEvent {
    type V = OutputEventView;

    open spec fn view(&self) -> OutputEventView {
        match *self {
            OutputEvent::Name(name) => OutputEventView::Name(name@),
            OutputEvent::Description(text) => OutputEventView::Description(text@),
            OutputEvent::Geometry { make, model } => OutputEventView::Geometry {
                make: make@,
                model: model@,
            },
            OutputEvent::Mode { width, height, refresh } => OutputEventView::Mode {
                width,
                height,
                refresh,
            },
            OutputEvent::Scale(factor) => OutputEventView::Scale(factor),
            OutputEvent::Done => OutputEventView::Done,
        }
    }
}

impl MetadataView {
    /// A record that has received nothing.
    pub open spec fn empty() -> MetadataView {
        MetadataView {
            complete: false,
            name: None,
            description: None,
            make: Seq::empty(),
            model: Seq::empty(),
            mode: None,
            scale: None,
        }
    }

    /// The same attributes, open to change again.
    pub open spec fn reopened(self) -> MetadataView {
        MetadataView { complete: false, ..self }
    }

    /// The first required attribute that is absent, in the order in which a
    /// promotion asks for them: name, scale, mode.
    pub open spec fn missing(self) -> Option<Seq<char>> {
        if self.name is None {
            Some("name"@)
        } else if self.scale is None {
            Some("scale"@)
        } else if self.mode is None {
            Some("mode"@)
        } else {
            None
        }
    }

    /// What a promotion leaves behind. A complete record stays as it is. An
    /// open one with every required attribute becomes complete. A failed
    /// promotion has used up the attributes that it read before the absent
    /// one: nothing if the name is absent, else name, description and scale
    /// and, if it got as far as the mode, the mode.
    pub open spec fn promoted(self) -> MetadataView {
        if self.complete {
            self
        } else if self.name is None {
            self
        } else if self.scale is None {
            MetadataView { name: None, description: None, scale: None, ..self }
        } else if self.mode is None {
            MetadataView { name: None, description: None, scale: None, mode: None, ..self }
        } else {
            MetadataView { complete: true, ..self }
        }
    }

    /// The record after an event of the announcement.
    pub open spec fn after(self, event: OutputEventView) -> MetadataView {
        match event {
            OutputEventView::Name(name) => MetadataView { name: Some(name), ..self.reopened() },
            OutputEventView::Description(text) => MetadataView {
                description: Some(text),
                ..self.reopened()
            },
            OutputEventView::Geometry { make, model } => MetadataView {
                make,
                model,
                ..self.reopened()
            },
            OutputEventView::Mode { width, height, refresh } => MetadataView {
                mode: Some((OutputMode { width, height, refresh })),
                ..self.reopened()
            },
            OutputEventView::Scale(factor) => MetadataView {
                scale: Some(factor),
                ..self.reopened()
            },
            OutputEventView::Done => self.promoted(),
        }
    }

    /// The record after a run of events, the first applied first.
    pub open spec fn after_all(self, events: Seq<OutputEventView>) -> MetadataView
        decreases events.len(),
    {
        if events.len() == 0 {
            self
        } else {
            self.after_all(events.drop_last()).after(events.last())
        }
    }

    /// Whether the record satisfies a caller's identifier. An open record
    /// satisfies none.
    pub open spec fn satisfies(self, identifier: IdentifierView) -> bool {
        self.complete && match identifier {
            IdentifierView::Name(name) => self.name == Some(name),
            IdentifierView::Description(text) => self.description == Some(text),
            IdentifierView::Metadata { make, model } => self.make == make && self.model == model,
        }
    }
}

impl Default for WlOutputMetadataPartial {
    fn default() -> (partial: WlOutputMetadataPartial)
        ensures
            partial@ == MetadataView::empty(),
    {
        WlOutputMetadataPartial {
            name: None,
            description: None,
            make: String::new(),
            model: String::new(),
            mode: None,
            scale: None,
        }
    }
}

impl Default for OutputMetadataVariant {
    fn default() -> (metadata: OutputMetadataVariant)
        ensures
            metadata@ == MetadataView::empty(),
    {
        OutputMetadataVariant::Partial(WlOutputMetadataPartial::default())
    }
}

/// The error of a promotion that found a required attribute absent.
fn missing_attribute(field: &str) -> (e: CapturerError)
    ensures
        e@ == (ErrorView::MissingAttribute { field: field@ }),
{
    CapturerError::MissingAttribute { field: String::from_str(field) }
}

impl OutputMetadataVariant {
    /// Whether the announcement of these attributes is complete.
    pub fn is_complete(&self) -> (complete: bool)
        ensures
            complete == self@.complete,
    {
        match self {
            OutputMetadataVariant::Partial(_) => false,
            OutputMetadataVariant::Complete(_) => true,
        }
    }

    /// Whether attributes are still arriving.
    pub fn is_partial(&self) -> (partial: bool)
        ensures
            partial == !self@.complete,
    {
        !self.is_complete()
    }

    /// Opens the record to change again, keeping what it holds.
    pub fn to_partial(&mut self)
        ensures
            final(self)@ == old(self)@.reopened(),
    {
        let mut current = OutputMetadataVariant::default();
        core::mem::swap(self, &mut current);
        *self = match current {
            OutputMetadataVariant::Partial(partial) => OutputMetadataVariant::Partial(partial),
            OutputMetadataVariant::Complete(meta) => OutputMetadataVariant::Partial(
                WlOutputMetadataPartial {
                    name: Some(meta.name),
                    description: meta.description,
                    make: meta.make,
                    model: meta.model,
                    mode: Some(meta.mode),
                    scale: Some(meta.scale),
                },
            ),
        };
    }

    /// Promotes an open record to a complete one. Fails, naming the first
    /// absent attribute, where name, scale or mode has not arrived.
    pub fn to_complete(&mut self) -> (r: Result<(), CapturerError>)
        ensures
            final(self)@ == old(self)@.promoted(),
            old(self)@.complete ==> r is Ok,
            !old(self)@.complete ==> match old(self)@.missing() {
                Some(field) => r is Err && r->Err_0@ == (ErrorView::MissingAttribute { field }),
                None => r is Ok,
            },
    {
        let mut current = OutputMetadataVariant::default();
        core::mem::swap(self, &mut current);
        match current {
            OutputMetadataVariant::Complete(meta) => {
                *self = OutputMetadataVariant::Complete(meta);
                Ok(())
            },
            OutputMetadataVariant::Partial(partial) => {
                let WlOutputMetadataPartial { name, description, make, model, mode, scale } =
                    partial;
                let Some(name) = name else {
                    *self = OutputMetadataVariant::Partial(
                        WlOutputMetadataPartial {
                            name: None,
                            description,
                            make,
                            model,
                            mode,
                            scale,
                        },
                    );
                    return Err(missing_attribute("name"));
                };
                let Some(scale) = scale else {
                    *self = OutputMetadataVariant::Partial(
                        WlOutputMetadataPartial {
                            name: None,
                            description: None,
                            make,
                            model,
                            mode,
                            scale: None,
                        },
                    );
                    return Err(missing_attribute("scale"));
                };
                let Some(mode) = mode else {
                    *self = OutputMetadataVariant::Partial(
                        WlOutputMetadataPartial {
                            name: None,
                            description: None,
                            make,
                            model,
                            mode: None,
                            scale: None,
                        },
                    );
                    return Err(missing_attribute("mode"));
                };
                *self = OutputMetadataVariant::Complete(
                    OutputMetadata { name, description, make, model, mode, scale },
                );
                Ok(())
            },
        }
    }

    /// Whether the record satisfies a caller's identifier.
    pub fn matches(&self, identifier: &OutputIdentifier) -> (found: bool)
        ensures
            found == self@.satisfies(identifier@),
    {
        match self {
            OutputMetadataVariant::Partial(_) => false,
            OutputMetadataVariant::Complete(meta) => match identifier {
                OutputIdentifier::Name(name) => meta.name == *name,
                OutputIdentifier::Description(text) => match &meta.description {
                    Some(description) => *description == *text,
                    None => false,
                },
                OutputIdentifier::Metadata { make, model } => meta.make == *make && meta.model
                    == *model,
            },
        }
    }
}

/// One output of the compositor: its key and its attributes.
#[derive(Debug, Clone, PartialEq, Eq)]
pub struct WlOutputMapping {
    pub wl_output: OutputId,
    pub metadata: OutputMetadataVariant,
}

impl WlOutputMapping {
    /// The record of an output of which nothing is known yet.
    pub fn new(wl_output: OutputId) -> (mapping: WlOutputMapping)
        ensures
            mapping.wl_output == wl_output,
            mapping.metadata@ == MetadataView::empty(),
    {
        WlOutputMapping { wl_output, metadata: OutputMetadataVariant::default() }
    }

    /// Takes in one event of the output's announcement. An attribute opens
    /// the record and sets its field; the end of the announcement promotes
    /// the record, and fails where a required attribute is absent.
    pub fn handle_event(&mut self, event: OutputEvent) -> (r: Result<(), CapturerError>)
        ensures
            final(self).wl_output == old(self).wl_output,
            final(self).metadata@ == old(self).metadata@.after(event@),
            event@ is Done && !old(self).metadata@.complete ==> match old(
                self,
            ).metadata@.missing() {
                Some(field) => r is Err && r->Err_0@ == (ErrorView::MissingAttribute { field }),
                None => r is Ok,
            },
            !(event@ is Done) || old(self).metadata@.complete ==> r is Ok,
    {
        if let OutputEvent::Done = event {
            return self.metadata.to_complete();
        }
        self.metadata.to_partial();
        let mut current = OutputMetadataVariant::default();
        core::mem::swap(&mut self.metadata, &mut current);
        self.metadata = match current {
            OutputMetadataVariant::Complete(meta) => OutputMetadataVariant::Complete(meta),
            OutputMetadataVariant::Partial(partial) => {
                let mut partial = partial;
                match event {
                    OutputEvent::Name(name) => {
                        partial.name = Some(name);
                    },
                    OutputEvent::Description(text) => {
                        partial.description = Some(text);
                    },
                    OutputEvent::Geometry { make, model } => {
                        partial.make = make;
                        partial.model = model;
                    },
                    OutputEvent::Mode { width, height, refresh } => {
                        partial.mode = Some(OutputMode { width, height, refresh });
                    },
                    OutputEvent::Scale(factor) => {
                        partial.scale = Some(factor);
                    },
                    OutputEvent::Done => {},
                }
                OutputMetadataVariant::Partial(partial)
            },
        };
        Ok(())
    }
}

/// Whether the record at a place is the first that satisfies the identifier.
pub open spec fn first_match(
    records: Seq<WlOutputMapping>,
    identifier: IdentifierView,
    at: int,
) -> bool {
    &&& 0 <= at < records.len()
    &&& records[at].metadata@.satisfies(identifier)
    &&& forall|j: int| 0 <= j < at ==> !(#[trigger] records[j]).metadata@.satisfies(identifier)
}

/// Picks the output that a caller's identifier names: the first record whose
/// complete attributes satisfy it. Fails where no record does.
pub fn resolve(records: &Vec<WlOutputMapping>, identifier: &OutputIdentifier) -> (r: Result<
    OutputId,
    CapturerError,
>)
    ensures
        match r {
            Ok(output) => exists|at: int|
                first_match(records@, identifier@, at) && output == (#[trigger] records@[at])
                    .wl_output,
            Err(e) => e@ == ErrorView::OutputNotFound && forall|at: int|
                0 <= at < records@.len() ==> !(#[trigger] records@[at]).metadata@.satisfies(
                    identifier@,
                ),
        },
{
    let mut i: usize = 0;
    while i < records.len()
        invariant
            i <= records@.len(),
            forall|j: int| 0 <= j < i ==> !(#[trigger] records@[j]).metadata@.satisfies(identifier@),
        decreases records@.len() - i,
    {
        if records[i].metadata.matches(identifier) {
            assert(first_match(records@, identifier@, i as int));
            return Ok(records[i].wl_output);
        }
        i += 1;
    }
    Err(CapturerError::OutputNotFound)
}

/// Whether an event sets an attribute, and so is not the end of an
/// announcement.
pub open spec fn is_attribute(event: OutputEventView) -> bool {
    !(event is Done)
}

/// An attribute event that arrives twice in a row changes nothing the second
/// time.
pub proof fn lemma_attribute_idempotent(record: MetadataView, event: OutputEventView)
    requires
        is_attribute(event),
    ensures
        record.after(event).after(event) == record.after(event),
{
}

/// The end of an announcement that arrives twice in a row changes nothing the
/// second time.
pub proof fn lemma_done_idempotent(record: MetadataView)
    ensures
        record.promoted().promoted() == record.promoted(),
{
}

/// Whether a run of events is a well-formed announcement without its end:
/// attributes only, among them a name, a mode and a scale.
pub open spec fn well_formed(events: Seq<OutputEventView>) -> bool {
    &&& forall|i: int| 0 <= i < events.len() ==> is_attribute(#[trigger] events[i])
    &&& exists|i: int| 0 <= i < events.len() && (#[trigger] events[i]) is Name
    &&& exists|i: int| 0 <= i < events.len() && (#[trigger] events[i]) is Mode
    &&& exists|i: int| 0 <= i < events.len() && (#[trigger] events[i]) is Scale
}

/// After a run of attributes a record is open, and holds each required
/// attribute that the run has sent.
proof fn lemma_attributes_arrive(record: MetadataView, events: Seq<OutputEventView>)
    requires
        forall|i: int| 0 <= i < events.len() ==> is_attribute(#[trigger] events[i]),
    ensures
        events.len() > 0 ==> !record.after_all(events).complete,
        (exists|i: int| 0 <= i < events.len() && (#[trigger] events[i]) is Name)
            ==> record.after_all(events).name is Some,
        (exists|i: int| 0 <= i < events.len() && (#[trigger] events[i]) is Mode)
            ==> record.after_all(events).mode is Some,
        (exists|i: int| 0 <= i < events.len() && (#[trigger] events[i]) is Scale)
            ==> record.after_all(events).scale is Some,
    decreases events.len(),
{
    if events.len() > 0 {
        let front = events.drop_last();
        let last = events.last();
        lemma_attributes_arrive(record, front);
        assert(is_attribute(events[events.len() - 1]));
        assert forall|i: int| 0 <= i < events.len() - 1 implies front[i] == events[i] by {}
        if exists|i: int| 0 <= i < events.len() && (#[trigger] events[i]) is Name {
            let i = choose|i: int| 0 <= i < events.len() && (#[trigger] events[i]) is Name;
            if i < events.len() - 1 {
                assert(front[i] is Name);
            }
        }
        if exists|i: int| 0 <= i < events.len() && (#[trigger] events[i]) is Mode {
            let i = choose|i: int| 0 <= i < events.len() && (#[trigger] events[i]) is Mode;
            if i < events.len() - 1 {
                assert(front[i] is Mode);
            }
        }
        if exists|i: int| 0 <= i < events.len() && (#[trigger] events[i]) is Scale {
            let i = choose|i: int| 0 <= i < events.len() && (#[trigger] events[i]) is Scale;
            if i < events.len() - 1 {
                assert(front[i] is Scale);
            }
        }
    }
}

/// Whatever a record held before, a well-formed announcement followed by its
/// end leaves it complete.
pub proof fn lemma_announcement_completes(record: MetadataView, events: Seq<OutputEventView>)
    requires
        well_formed(events),
    ensures
        record.after_all(events).missing() is None,
        record.after_all(events).after(OutputEventView::Done).complete,
        record.after_all(events).after(OutputEventView::Done) == (MetadataView {
            complete: true,
            ..record.after_all(events)
        }),
{
    lemma_attributes_arrive(record, events);
}

/// A record that is not complete satisfies no identifier.
pub proof fn lemma_open_never_matches(record: MetadataView, identifier: IdentifierView)
    requires
        !record.complete,
    ensures
        !record.satisfies(identifier),
{
}

} // verus!
