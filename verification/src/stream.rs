//! The stream consumer: a state machine over the events of a block stream.
//!
//! The consumer keeps the units that were delivered and not rolled back, in
//! the order of delivery, and the cursor that was persisted last. A unit with
//! an empty payload is delivered but gives no output and does not move the
//! cursor. An undo signal rolls the delivered units back to the last one that
//! carries the signal's cursor, and moves the cursor there.
//!
//! Payloads are decoded by the host, before a unit is handed in: the consumer
//! says with which decoder, and a payload that cannot be decoded stops
//! consumption without the unit being recorded or the cursor moving.

use crate::registry::{lookup_decoder, registered_decoder, ModuleKind};
use crate::package::{ModuleView, Package};
use crate::range::{block_range, range_text, read_block_range, RangeError, RangeErrorView};
use crate::text::optional_text;
use vstd::prelude::*;

verus! {

/// One unit of data of the stream, with the cursor that resumes behind it.
pub struct BlockScopedData {
    pub cursor: String,
    pub payload: Vec<u8>,
}

/// What a `BlockScopedData` is, as plain values.
pub struct BlockScopedDataView {
    pub cursor: Seq<char>,
    pub payload: Seq<u8>,
}

impl View for BlockScopedData {
    type V = BlockScopedDataView;

    open spec fn view(&self) -> BlockScopedDataView {
        BlockScopedDataView { cursor: self.cursor@, payload: self.payload@ }
    }
}

/// The signal that what was delivered behind `last_valid_cursor` is void.
pub struct BlockUndoSignal {
    pub last_valid_cursor: String,
}

/// An event of the stream.
pub enum StreamEvent {
    /// A new unit of data. Where `StreamConsumer::wants_decoding` names a
    /// decoder for the unit, the host has decoded its payload.
    NewData(BlockScopedData),
    /// A rollback to an earlier point of the stream.
    UndoSignal(BlockUndoSignal),
    /// The payload of the unit that arrived could not be decoded; the text
    /// describes why. The host hands this in, in place of the unit.
    DecodeFailure(String),
    /// The stream failed; the text describes the failure.
    Error(String),
    /// The stream has ended.
    EndOfStream,
}

/// What a `StreamEvent` is, as plain values.
pub enum StreamEventView {
    NewData(BlockScopedDataView),
    UndoSignal(Seq<char>),
    DecodeFailure(Seq<char>),
    Error(Seq<char>),
    EndOfStream,
}

impl View for StreamEvent {
    type V = StreamEventView;

    open spec fn view(&self) -> StreamEventView {
        match self {
            StreamEvent::NewData(unit) => StreamEventView::NewData(unit@),
            StreamEvent::UndoSignal(signal) => StreamEventView::UndoSignal(
                signal.last_valid_cursor@,
            ),
            StreamEvent::DecodeFailure(text) => StreamEventView::DecodeFailure(text@),
            StreamEvent::Error(text) => StreamEventView::Error(text@),
            StreamEvent::EndOfStream => StreamEventView::EndOfStream,
        }
    }
}

/// Why a unit gives no output, or why consumption stopped.
pub enum StreamError {
    /// The registry has no decoder for the module of this name.
    UnknownModule(String),
    /// The payload of the unit is empty.
    EmptyBlockData,
    /// The payload of a unit could not be decoded; the text describes why.
    Decode(String),
    /// The stream terminated with the error that the text describes.
    Terminated(String),
}

/// What a `StreamError` is, as plain values.
pub enum StreamErrorView {
    UnknownModule(Seq<char>),
    EmptyBlockData,
    Decode(Seq<char>),
    Terminated(Seq<char>),
}

impl View for StreamError {
    type V = StreamErrorView;

    open spec fn view(&self) -> StreamErrorView {
        match self {
            StreamError::UnknownModule(name) => StreamErrorView::UnknownModule(name@),
            StreamError::EmptyBlockData => StreamErrorView::EmptyBlockData,
            StreamError::Decode(text) => StreamErrorView::Decode(text@),
            StreamError::Terminated(text) => StreamErrorView::Terminated(text@),
        }
    }
}

/// Where a consumer stands.
pub enum Status {
    /// The consumer takes events.
    Running,
    /// The stream has ended.
    Finished,
    /// Consumption stopped with an error.
    Failed(StreamError),
}

/// What a `Status` is, as plain values.
pub enum StatusView {
    Running,
    Finished,
    Failed(StreamErrorView),
}

impl View for Status {
    type V = StatusView;

    open spec fn view(&self) -> StatusView {
        match self {
            Status::Running => StatusView::Running,
            Status::Finished => StatusView::Finished,
            Status::Failed(e) => StatusView::Failed(e@),
        }
    }
}

/// What the host is to do after an event.
pub enum Action {
    /// Hand the output on, then persist the cursor.
    Emit { output: Vec<u8>, cursor: String },
    /// Nothing: the unit was empty.
    Skip,
    /// Roll back what was made durable behind the cursor, then persist the cursor.
    Rollback { last_valid_cursor: String },
    /// Stop taking events: consumption has ended.
    Stop,
}

/// What an `Action` is, as plain values.
pub enum ActionView {
    Emit { output: Seq<u8>, cursor: Seq<char> },
    Skip,
    Rollback { last_valid_cursor: Seq<char> },
    Stop,
}

impl View for Action {
    type V = ActionView;

    open spec fn view(&self) -> ActionView {
        match self {
            Action::Emit { output, cursor } => ActionView::Emit {
                output: output@,
                cursor: cursor@,
            },
            Action::Skip => ActionView::Skip,
            Action::Rollback { last_valid_cursor } => ActionView::Rollback {
                last_valid_cursor: last_valid_cursor@,
            },
            Action::Stop => ActionView::Stop,
        }
    }
}

/// The views of a list of units, in order.
pub open spec fn units_view(units: Seq<BlockScopedData>) -> Seq<BlockScopedDataView> {
    Seq::new(units.len(), |i: int| units[i]@)
}

/// The views of a list of events, in order.
pub open spec fn events_view(events: Seq<StreamEvent>) -> Seq<StreamEventView> {
    Seq::new(events.len(), |i: int| events[i]@)
}

/// The views of a list of payloads, in order.
pub open spec fn payloads_view(payloads: Seq<Vec<u8>>) -> Seq<Seq<u8>> {
    Seq::new(payloads.len(), |i: int| payloads[i]@)
}

/// The output of a unit of the module `module_name`: its payload, unless the
/// registry has no decoder for the module or the payload is empty.
pub open spec fn unit_output(unit: BlockScopedDataView, module_name: Seq<char>) -> Result<
    Seq<u8>,
    StreamErrorView,
> {
    if registered_decoder(module_name) is None {
        Err(StreamErrorView::UnknownModule(module_name))
    } else if unit.payload.len() == 0 {
        Err(StreamErrorView::EmptyBlockData)
    } else {
        Ok(unit.payload)
    }
}

/// How many of the delivered units stay after a rollback to `cursor`: those
/// up to the last one that carries `cursor`, or none where no unit carries it.
pub open spec fn retained_len(units: Seq<BlockScopedDataView>, cursor: Seq<char>) -> nat
    decreases units.len(),
{
    if units.len() == 0 {
        0
    } else if units.last().cursor == cursor {
        units.len()
    } else {
        retained_len(units.drop_last(), cursor)
    }
}

/// The delivered units that stay after a rollback to `cursor`.
pub open spec fn retained(units: Seq<BlockScopedDataView>, cursor: Seq<char>) -> Seq<
    BlockScopedDataView,
> {
    units.take(retained_len(units, cursor) as int)
}

/// The outputs of the delivered units: their payloads in order, without the empty ones.
pub open spec fn outputs(units: Seq<BlockScopedDataView>) -> Seq<Seq<u8>>
    decreases units.len(),
{
    if units.len() == 0 {
        Seq::empty()
    } else if units.last().payload.len() == 0 {
        outputs(units.drop_last())
    } else {
        outputs(units.drop_last()).push(units.last().payload)
    }
}

/// What a `StreamConsumer` is, as plain values.
pub struct ConsumerView {
    /// The module whose output is consumed.
    pub module_name: Seq<char>,
    /// The cursor that was persisted last, or loaded at the start.
    pub cursor: Option<Seq<char>>,
    /// The units that were delivered and not rolled back, in the order of delivery.
    pub units: Seq<BlockScopedDataView>,
    /// Where the consumer stands.
    pub status: StatusView,
}

/// The consumer that starts on the module `module_name` behind `cursor`.
pub open spec fn start(module_name: Seq<char>, cursor: Option<Seq<char>>) -> ConsumerView {
    ConsumerView { module_name, cursor, units: Seq::empty(), status: StatusView::Running }
}

/// The consumer after one event.
pub open spec fn step(s: ConsumerView, event: StreamEventView) -> ConsumerView {
    if s.status != StatusView::Running {
        s
    } else {
        match event {
            StreamEventView::NewData(unit) => match unit_output(unit, s.module_name) {
                Ok(_) => ConsumerView {
                    units: s.units.push(unit),
                    cursor: Some(unit.cursor),
                    ..s
                },
                Err(StreamErrorView::EmptyBlockData) => ConsumerView {
                    units: s.units.push(unit),
                    ..s
                },
                Err(e) => ConsumerView { status: StatusView::Failed(e), ..s },
            },
            StreamEventView::UndoSignal(cursor) => ConsumerView {
                units: retained(s.units, cursor),
                cursor: Some(cursor),
                ..s
            },
            StreamEventView::DecodeFailure(text) => ConsumerView {
                status: StatusView::Failed(StreamErrorView::Decode(text)),
                ..s
            },
            StreamEventView::Error(text) => ConsumerView {
                status: StatusView::Failed(StreamErrorView::Terminated(text)),
                ..s
            },
            StreamEventView::EndOfStream => ConsumerView { status: StatusView::Finished, ..s },
        }
    }
}

/// What the host is to do after the event that takes the consumer from `s`.
pub open spec fn action_of(s: ConsumerView, event: StreamEventView) -> ActionView {
    if s.status != StatusView::Running {
        ActionView::Stop
    } else {
        match event {
            StreamEventView::NewData(unit) => match unit_output(unit, s.module_name) {
                Ok(output) => ActionView::Emit { output, cursor: unit.cursor },
                Err(StreamErrorView::EmptyBlockData) => ActionView::Skip,
                Err(_) => ActionView::Stop,
            },
            StreamEventView::UndoSignal(cursor) => ActionView::Rollback {
                last_valid_cursor: cursor,
            },
            StreamEventView::DecodeFailure(_) => ActionView::Stop,
            StreamEventView::Error(_) => ActionView::Stop,
            StreamEventView::EndOfStream => ActionView::Stop,
        }
    }
}

/// The decoder that the payload of `unit` is to be read with before the unit
/// is handed to the consumer `s`, or none where the unit is not decoded: the
/// consumer has ended, the unit is empty, or the registry has no decoder.
pub open spec fn decoder_wanted(s: ConsumerView, unit: BlockScopedDataView) -> Option<ModuleKind> {
    if s.status == StatusView::Running && unit.payload.len() > 0 {
        registered_decoder(s.module_name)
    } else {
        None
    }
}

/// The event that a unit becomes once the host has tried to decode it: the
/// unit itself where that succeeded, else the failure.
pub open spec fn decoded_event(
    unit: BlockScopedDataView,
    outcome: Result<(), Seq<char>>,
) -> StreamEventView {
    match outcome {
        Ok(_) => StreamEventView::NewData(unit),
        Err(text) => StreamEventView::DecodeFailure(text),
    }
}

/// What the outcome of decoding is, as plain values.
pub open spec fn decode_outcome_view(outcome: Result<(), String>) -> Result<(), Seq<char>> {
    match outcome {
        Ok(_) => Ok(()),
        Err(text) => Err(text@),
    }
}

/// The consumer after a sequence of events.
pub open spec fn run(s: ConsumerView, events: Seq<StreamEventView>) -> ConsumerView
    decreases events.len(),
{
    if events.len() == 0 {
        s
    } else {
        step(run(s, events.drop_last()), events.last())
    }
}

/// What a call returns for the consumer `s`: the error where consumption
/// failed, else the outputs of the units that were delivered and not rolled back.
pub open spec fn outcome(s: ConsumerView) -> Result<Seq<Seq<u8>>, StreamErrorView> {
    match s.status {
        StatusView::Failed(e) => Err(e),
        _ => Ok(outputs(s.units)),
    }
}

/// What the result of one unit is, as plain values.
pub open spec fn output_result_view(result: Result<Vec<u8>, StreamError>) -> Result<
    Seq<u8>,
    StreamErrorView,
> {
    match result {
        Ok(output) => Ok(output@),
        Err(e) => Err(e@),
    }
}

/// What the result of a call is, as plain values.
pub open spec fn outcome_view(result: Result<Vec<Vec<u8>>, StreamError>) -> Result<
    Seq<Seq<u8>>,
    StreamErrorView,
> {
    match result {
        Ok(payloads) => Ok(payloads_view(payloads@)),
        Err(e) => Err(e@),
    }
}

/// Gives the output of one unit of the module `module_name`.
pub fn process_block_scoped_data(data: &BlockScopedData, module_name: &str) -> (result: Result<
    Vec<u8>,
    StreamError,
>)
    ensures
        output_result_view(result) == unit_output(data@, module_name@),
{
    if lookup_decoder(module_name).is_none() {
        return Err(StreamError::UnknownModule(String::from_str(module_name)));
    }
    if data.payload.len() == 0 {
        return Err(StreamError::EmptyBlockData);
    }
    let output = data.payload.clone();
    Ok(output)
}

/// Rolls the delivered units back to the last one that carries the cursor of the signal.
pub fn process_block_undo_signal(units: &mut Vec<BlockScopedData>, undo_signal: &BlockUndoSignal)
    ensures
        units_view(final(units)@) == retained(
            units_view(old(units)@),
            undo_signal.last_valid_cursor@,
        ),
{
    let ghost before = units_view(units@);
    let mut keep: usize = units.len();
    assert(before.take(keep as int) =~= before);
    while keep > 0 && units[keep - 1].cursor != undo_signal.last_valid_cursor
        invariant
            keep <= units.len(),
            before == units_view(units@),
            retained_len(before, undo_signal.last_valid_cursor@) == retained_len(
                before.take(keep as int),
                undo_signal.last_valid_cursor@,
            ),
        decreases keep,
    {
        assert(before.take(keep as int).drop_last() =~= before.take(keep - 1));
        keep -= 1;
    }
    units.truncate(keep);
}

/// What the transport is asked for when a stream is opened.
pub struct StreamRequest {
    /// The module whose output is asked for.
    pub module_name: String,
    /// The cursor behind which the stream resumes, or none to begin at the start.
    pub cursor: Option<String>,
    /// The first block of the range.
    pub start_block: i64,
    /// The block at which the range stops, or `0` for a range without end.
    pub stop_block: u64,
}

/// What a `StreamRequest` is, as plain values.
pub struct StreamRequestView {
    pub module_name: Seq<char>,
    pub cursor: Option<Seq<char>>,
    pub start_block: int,
    pub stop_block: int,
}

impl View for StreamRequest {
    type V = StreamRequestView;

    open spec fn view(&self) -> StreamRequestView {
        StreamRequestView {
            module_name: self.module_name@,
            cursor: optional_text(self.cursor),
            start_block: self.start_block as int,
            stop_block: self.stop_block as int,
        }
    }
}

/// The request that the consumer `s` makes for the range `expr` in a package.
pub open spec fn stream_request_of(
    s: ConsumerView,
    modules: Seq<ModuleView>,
    expr: Seq<char>,
) -> Result<StreamRequestView, RangeErrorView> {
    match block_range(modules, s.module_name, expr) {
        Ok((start_block, stop_block)) => Ok(
            StreamRequestView {
                module_name: s.module_name,
                cursor: s.cursor,
                start_block,
                stop_block,
            },
        ),
        Err(e) => Err(e),
    }
}

/// What the result of making a request is, as plain values.
pub open spec fn request_result_view(result: Result<StreamRequest, RangeError>) -> Result<
    StreamRequestView,
    RangeErrorView,
> {
    match result {
        Ok(request) => Ok(request@),
        Err(e) => Err(e@),
    }
}

/// What holds of a consumer at every point of a run: without a decoder for
/// its module it has taken no unit, and it fails for an unknown module only
/// on its own module.
pub open spec fn consistent(s: ConsumerView) -> bool {
    &&& registered_decoder(s.module_name) is None ==> s.units.len() == 0
    &&& s.status matches StatusView::Failed(StreamErrorView::UnknownModule(name)) ==> name
        == s.module_name && registered_decoder(s.module_name) is None
}

/// The consumer of one stream.
pub struct StreamConsumer {
    module_name: String,
    cursor: Option<String>,
    units: Vec<BlockScopedData>,
    status: Status,
}

impl View for StreamConsumer {
    type V = ConsumerView;

    closed spec fn view(&self) -> ConsumerView {
        ConsumerView {
            module_name: self.module_name@,
            cursor: optional_text(self.cursor),
            units: units_view(self.units@),
            status: self.status@,
        }
    }
}

impl StreamConsumer {
    /// Starts a consumer on the module `module_name`, behind `cursor`: the
    /// cursor that was persisted last, or none to begin at the start of the stream.
    pub fn new(module_name: &str, cursor: Option<String>) -> (consumer: Self)
        ensures
            consumer@ == start(module_name@, optional_text(cursor)),
    {
        let consumer = StreamConsumer {
            module_name: String::from_str(module_name),
            cursor,
            units: Vec::new(),
            status: Status::Running,
        };
        assert(consumer@.units =~= Seq::empty());
        consumer
    }

    /// Records `cursor` as the cursor that was persisted last.
    pub fn persist_cursor(&mut self, cursor: String)
        ensures
            final(self)@ == (ConsumerView { cursor: Some(cursor@), ..old(self)@ }),
    {
        self.cursor = Some(cursor);
    }

    /// The cursor that was persisted last: the point at which a stream is resumed.
    pub fn load_persisted_cursor(&self) -> (cursor: Option<String>)
        ensures
            optional_text(cursor) == self@.cursor,
    {
        match &self.cursor {
            Some(cursor) => Some(cursor.clone()),
            None => None,
        }
    }

    /// The decoder of the consumer's module, if the registry has one.
    pub fn decoder(&self) -> (kind: Option<ModuleKind>)
        ensures
            kind == registered_decoder(self@.module_name),
    {
        lookup_decoder(self.module_name.as_str())
    }

    /// Whether the consumer still takes events.
    pub fn is_running(&self) -> (running: bool)
        ensures
            running == (self@.status == StatusView::Running),
    {
        match self.status {
            Status::Running => true,
            _ => false,
        }
    }

    /// What the transport is asked for: the output of the consumer's module
    /// over the block range that `range` gives in `package`, resumed behind
    /// the cursor that was persisted last.
    pub fn request(&self, package: &Package, range: Option<&str>) -> (result: Result<
        StreamRequest,
        RangeError,
    >)
        ensures
            request_result_view(result) == stream_request_of(self@, package@, range_text(range)),
    {
        let (start_block, stop_block) = match read_block_range(
            package,
            self.module_name.as_str(),
            range,
        ) {
            Ok(blocks) => blocks,
            Err(e) => {
                return Err(e);
            },
        };
        Ok(
            StreamRequest {
                module_name: self.module_name.clone(),
                cursor: self.load_persisted_cursor(),
                start_block,
                stop_block,
            },
        )
    }

    /// Takes one event of the stream, and says what the host is to do. A
    /// unit that needs decoding is handed in through `on_decoded`.
    pub fn on_event(&mut self, event: StreamEvent) -> (action: Action)
        ensures
            final(self)@ == step(old(self)@, event@),
            action@ == action_of(old(self)@, event@),
    {
        if !self.is_running() {
            return Action::Stop;
        }
        match event {
            StreamEvent::NewData(unit) => {
                match process_block_scoped_data(&unit, self.module_name.as_str()) {
                    Ok(output) => {
                        let cursor = unit.cursor.clone();
                        let persisted = unit.cursor.clone();
                        let ghost before = units_view(self.units@);
                        self.units.push(unit);
                        assert(units_view(self.units@) =~= before.push(unit@));
                        self.persist_cursor(persisted);
                        Action::Emit { output, cursor }
                    },
                    Err(StreamError::EmptyBlockData) => {
                        let ghost before = units_view(self.units@);
                        self.units.push(unit);
                        assert(units_view(self.units@) =~= before.push(unit@));
                        Action::Skip
                    },
                    Err(e) => {
                        self.status = Status::Failed(e);
                        Action::Stop
                    },
                }
            },
            StreamEvent::UndoSignal(undo_signal) => {
                process_block_undo_signal(&mut self.units, &undo_signal);
                let cursor = undo_signal.last_valid_cursor.clone();
                self.persist_cursor(undo_signal.last_valid_cursor);
                Action::Rollback { last_valid_cursor: cursor }
            },
            StreamEvent::DecodeFailure(text) => {
                self.status = Status::Failed(StreamError::Decode(text));
                Action::Stop
            },
            StreamEvent::Error(text) => {
                self.status = Status::Failed(StreamError::Terminated(text));
                Action::Stop
            },
            StreamEvent::EndOfStream => {
                self.status = Status::Finished;
                Action::Stop
            },
        }
    }

    /// The decoder that the host is to read the payload of `unit` with before
    /// it hands the unit in, or none where the unit is handed in as it is.
    pub fn wants_decoding(&self, unit: &BlockScopedData) -> (kind: Option<ModuleKind>)
        ensures
            kind == decoder_wanted(self@, unit@),
    {
        if self.is_running() && unit.payload.len() > 0 {
            self.decoder()
        } else {
            None
        }
    }

    /// Takes a unit with the outcome of decoding its payload. A unit that was
    /// decoded is taken as `on_event` takes it. A unit that could not be
    /// decoded stops consumption: it is not recorded, and the cursor stays
    /// where it was.
    pub fn on_decoded(&mut self, unit: BlockScopedData, outcome: Result<(), String>) -> (action:
        Action)
        ensures
            final(self)@ == step(old(self)@, decoded_event(unit@, decode_outcome_view(outcome))),
            action@ == action_of(old(self)@, decoded_event(unit@, decode_outcome_view(outcome))),
    {
        match outcome {
            Ok(_) => self.on_event(StreamEvent::NewData(unit)),
            Err(text) => self.on_event(StreamEvent::DecodeFailure(text)),
        }
    }

    /// Ends consumption: the error where it failed, else the outputs of the
    /// units that were delivered and not rolled back.
    pub fn finish(self) -> (result: Result<Vec<Vec<u8>>, StreamError>)
        ensures
            outcome_view(result) == outcome(self@),
    {
        match self.status {
            Status::Failed(e) => Err(e),
            _ => {
                let units = self.units;
                let mut payloads: Vec<Vec<u8>> = Vec::new();
                let mut i: usize = 0;
                while i < units.len()
                    invariant
                        i <= units.len(),
                        payloads_view(payloads@) == outputs(units_view(units@).take(i as int)),
                    decreases units.len() - i,
                {
                    assert(units_view(units@).take(i + 1).drop_last() =~= units_view(
                        units@,
                    ).take(i as int));
                    if units[i].payload.len() > 0 {
                        let payload = units[i].payload.clone();
                        payloads.push(payload);
                    }
                    i += 1;
                }
                assert(units_view(units@).take(i as int) =~= units_view(units@));
                Ok(payloads)
            },
        }
    }

    /// Consumes a whole stream: takes its events in order, then ends consumption.
    pub fn consume(self, events: Vec<StreamEvent>) -> (result: Result<Vec<Vec<u8>>, StreamError>)
        ensures
            outcome_view(result) == outcome(run(self@, events_view(events@))),
    {
        let mut consumer = self;
        let ghost first = consumer@;
        let ghost all = events_view(events@);
        for event in it: events
            invariant
                it.seq() == events@,
                all == events_view(events@),
                consumer@ == run(first, all.take(it.index() as int)),
        {
            assert(all.take(it.index() + 1).drop_last() =~= all.take(it.index() as int));
            let _ = consumer.on_event(event);
        }
        assert(all.take(events@.len() as int) =~= all);
        consumer.finish()
    }
}

/// Whether one of `events` delivers `unit`.
pub open spec fn delivered_by(events: Seq<StreamEventView>, unit: BlockScopedDataView) -> bool {
    exists|j: int| 0 <= j < events.len() && #[trigger] events[j] == StreamEventView::NewData(unit)
}

/// Whether an event ends consumption whatever the consumer's module is: a
/// failure to decode, an error of the stream, or its end.
pub open spec fn ends_stream(event: StreamEventView) -> bool {
    event is DecodeFailure || event is Error || event is EndOfStream
}

/// Whether `events` holds a unit at `index` and no event before it that ends
/// the stream.
pub open spec fn unit_arrives_at(events: Seq<StreamEventView>, index: int) -> bool {
    &&& 0 <= index < events.len()
    &&& events[index] is NewData
    &&& forall|k: int| 0 <= k < index ==> !ends_stream(#[trigger] events[k])
}

/// A rollback keeps the delivered units up to the last one that carries the
/// cursor, and no unit behind it.
pub proof fn lemma_retained(units: Seq<BlockScopedDataView>, cursor: Seq<char>)
    ensures
        retained_len(units, cursor) <= units.len(),
        retained_len(units, cursor) > 0 ==> units[retained_len(units, cursor) - 1].cursor == cursor,
        forall|j: int| retained_len(units, cursor) <= j < units.len() ==> units[j].cursor != cursor,
    decreases units.len(),
{
    if units.len() > 0 && units.last().cursor != cursor {
        let front = units.drop_last();
        lemma_retained(front, cursor);
        assert forall|j: int| retained_len(units, cursor) <= j < units.len() implies units[j].cursor
            != cursor by {
            if j < front.len() {
                assert(units[j] == front[j]);
            }
        }
    }
}

/// The outputs of the first units of a list begin the outputs of the list.
pub proof fn lemma_outputs_of_prefix(units: Seq<BlockScopedDataView>, n: int)
    requires
        0 <= n <= units.len(),
    ensures
        outputs(units.take(n)).is_prefix_of(outputs(units)),
    decreases units.len(),
{
    if n == units.len() {
        assert(units.take(n) =~= units);
    } else {
        let front = units.drop_last();
        assert(front.take(n) =~= units.take(n));
        lemma_outputs_of_prefix(front, n);
    }
}

/// After an undo signal the persisted cursor is the cursor of the signal, and
/// no unit that was delivered behind that cursor is kept: the units that stay
/// are those up to the last one that carries the cursor, their outputs stay
/// as they were, and the outputs of all later units are gone.
pub proof fn lemma_undo_rolls_back(s: ConsumerView, cursor: Seq<char>)
    requires
        s.status == StatusView::Running,
    ensures
        ({
            let t = step(s, StreamEventView::UndoSignal(cursor));
            &&& t.cursor == Some(cursor)
            &&& t.status == StatusView::Running
            &&& t.units.len() <= s.units.len()
            &&& t.units == s.units.take(t.units.len() as int)
            &&& t.units.len() > 0 ==> t.units.last().cursor == cursor
            &&& forall|j: int| t.units.len() <= j < s.units.len() ==> s.units[j].cursor != cursor
            &&& outputs(t.units).is_prefix_of(outputs(s.units))
        }),
{
    lemma_retained(s.units, cursor);
    lemma_outputs_of_prefix(s.units, retained_len(s.units, cursor) as int);
}

/// After a unit that gives an output, the persisted cursor is the cursor of
/// that unit, which is the unit delivered last: the cursor never falls behind
/// a unit that was confirmed before. An empty unit leaves the cursor and the
/// outputs as they were.
pub proof fn lemma_new_data_moves_cursor(s: ConsumerView, unit: BlockScopedDataView)
    requires
        s.status == StatusView::Running,
        registered_decoder(s.module_name) is Some,
    ensures
        ({
            let t = step(s, StreamEventView::NewData(unit));
            &&& t.status == StatusView::Running
            &&& t.units == s.units.push(unit)
            &&& unit.payload.len() > 0 ==> t.cursor == Some(t.units.last().cursor) && outputs(
                t.units,
            ) == outputs(s.units).push(unit.payload)
            &&& unit.payload.len() == 0 ==> t.cursor == s.cursor && outputs(t.units) == outputs(
                s.units,
            )
        }),
{
    let t = step(s, StreamEventView::NewData(unit));
    assert(t.units.drop_last() =~= s.units);
}

/// A consumer that has ended takes no further event.
pub proof fn lemma_ended_consumer_stays(s: ConsumerView, events: Seq<StreamEventView>)
    requires
        s.status != StatusView::Running,
    ensures
        run(s, events) == s,
    decreases events.len(),
{
    if events.len() > 0 {
        lemma_ended_consumer_stays(s, events.drop_last());
    }
}

/// Consuming two sequences of events in turn is consuming them as one: a
/// consumer may stop anywhere and go on from the state it reached.
pub proof fn lemma_run_concat(s: ConsumerView, a: Seq<StreamEventView>, b: Seq<StreamEventView>)
    ensures
        run(s, a + b) == run(run(s, a), b),
    decreases b.len(),
{
    if b.len() == 0 {
        assert(a + b =~= a);
    } else {
        assert((a + b).drop_last() =~= a + b.drop_last());
        lemma_run_concat(s, a, b.drop_last());
    }
}

/// Every step of a run keeps the consumer consistent.
pub proof fn lemma_run_is_consistent(s: ConsumerView, events: Seq<StreamEventView>)
    requires
        consistent(s),
    ensures
        consistent(run(s, events)),
    decreases events.len(),
{
    if events.len() > 0 {
        lemma_run_is_consistent(s, events.drop_last());
        let before = run(s, events.drop_last());
        match events.last() {
            StreamEventView::UndoSignal(cursor) => {
                lemma_retained(before.units, cursor);
            },
            _ => {},
        }
    }
}

/// A consumer that was started behind a persisted cursor holds only units
/// that its own events delivered: what was confirmed before the cursor is
/// not given out again.
pub proof fn lemma_resumed_run_holds_its_own_units(
    module_name: Seq<char>,
    cursor: Option<Seq<char>>,
    events: Seq<StreamEventView>,
)
    ensures
        run(start(module_name, cursor), events).module_name == module_name,
        forall|i: int|
            0 <= i < run(start(module_name, cursor), events).units.len() ==> delivered_by(
                events,
                #[trigger] run(start(module_name, cursor), events).units[i],
            ),
    decreases events.len(),
{
    let first = start(module_name, cursor);
    if events.len() > 0 {
        let earlier = events.drop_last();
        let before = run(first, earlier);
        let after = run(first, events);
        lemma_resumed_run_holds_its_own_units(module_name, cursor, earlier);
        match events.last() {
            StreamEventView::UndoSignal(last_valid_cursor) => {
                lemma_retained(before.units, last_valid_cursor);
            },
            _ => {},
        }
        assert forall|i: int| 0 <= i < after.units.len() implies delivered_by(
            events,
            #[trigger] after.units[i],
        ) by {
            if i < before.units.len() {
                assert(after.units[i] == before.units[i]);
                let j = choose|j: int|
                    0 <= j < earlier.len() && #[trigger] earlier[j] == StreamEventView::NewData(
                        before.units[i],
                    );
                assert(events[j] == earlier[j]);
            } else {
                assert(events.last() == StreamEventView::NewData(after.units[i]));
            }
        }
    }
}

/// A unit whose payload could not be decoded stops consumption with that
/// failure. The unit is not recorded, no output is added, and the persisted
/// cursor stays where it was.
pub proof fn lemma_decode_failure_stops(
    s: ConsumerView,
    unit: BlockScopedDataView,
    text: Seq<char>,
)
    requires
        s.status == StatusView::Running,
    ensures
        ({
            let t = step(s, decoded_event(unit, Err(text)));
            &&& t.status == StatusView::Failed(StreamErrorView::Decode(text))
            &&& t.units == s.units
            &&& t.cursor == s.cursor
            &&& action_of(s, decoded_event(unit, Err(text))) == ActionView::Stop
        }),
{
}

/// Consumption that is run again behind a persisted cursor gives no output
/// twice: where the stream that was resumed delivers none of the units that
/// were confirmed before, the consumer holds none of them, whatever else
/// arrives.
pub proof fn lemma_resumed_run_repeats_no_unit(
    module_name: Seq<char>,
    cursor: Option<Seq<char>>,
    events: Seq<StreamEventView>,
    confirmed: Seq<BlockScopedDataView>,
)
    requires
        forall|i: int| 0 <= i < confirmed.len() ==> !delivered_by(events, #[trigger] confirmed[i]),
    ensures
        forall|i: int, k: int|
            0 <= i < confirmed.len() && 0 <= k < run(start(module_name, cursor), events).units.len()
                ==> #[trigger] run(start(module_name, cursor), events).units[k]
                != #[trigger] confirmed[i],
{
    lemma_resumed_run_holds_its_own_units(module_name, cursor, events);
}

/// A consumer of a module that the registry does not know never holds an output.
pub proof fn lemma_unknown_module_gives_no_output(
    module_name: Seq<char>,
    cursor: Option<Seq<char>>,
    events: Seq<StreamEventView>,
)
    requires
        registered_decoder(module_name) is None,
    ensures
        run(start(module_name, cursor), events).units.len() == 0,
        outcome(run(start(module_name, cursor), events)) is Ok ==> outcome(
            run(start(module_name, cursor), events),
        ) == Ok::<Seq<Seq<u8>>, StreamErrorView>(Seq::empty()),
{
    lemma_resumed_run_holds_its_own_units(module_name, cursor, events);
    lemma_run_is_consistent(start(module_name, cursor), events);
}

/// While no event arrives that ends the stream, a consumer of a module that
/// the registry does not know is running or has failed on that module.
proof fn lemma_unknown_module_before_end(
    module_name: Seq<char>,
    cursor: Option<Seq<char>>,
    events: Seq<StreamEventView>,
)
    requires
        registered_decoder(module_name) is None,
        forall|k: int| 0 <= k < events.len() ==> !ends_stream(#[trigger] events[k]),
    ensures
        ({
            let s = run(start(module_name, cursor), events);
            &&& s.module_name == module_name
            &&& s.status == StatusView::Running || s.status == StatusView::Failed(
                StreamErrorView::UnknownModule(module_name),
            )
            &&& events.len() > 0 && events.last() is NewData ==> s.status == StatusView::Failed(
                StreamErrorView::UnknownModule(module_name),
            )
        }),
    decreases events.len(),
{
    if events.len() > 0 {
        let earlier = events.drop_last();
        assert forall|k: int| 0 <= k < earlier.len() implies !ends_stream(
            #[trigger] earlier[k],
        ) by {
            assert(earlier[k] == events[k]);
        }
        assert(!ends_stream(events[events.len() - 1]));
        lemma_unknown_module_before_end(module_name, cursor, earlier);
    }
}

/// A stream on a module that the registry does not know fails with the
/// unknown module as soon as a unit arrives: where a unit arrives before any
/// event that ends the stream, the call returns that error, and no output.
pub proof fn lemma_unknown_module_fails(
    module_name: Seq<char>,
    cursor: Option<Seq<char>>,
    events: Seq<StreamEventView>,
    index: int,
)
    requires
        registered_decoder(module_name) is None,
        unit_arrives_at(events, index),
    ensures
        outcome(run(start(module_name, cursor), events)) == Err::<Seq<Seq<u8>>, StreamErrorView>(
            StreamErrorView::UnknownModule(module_name),
        ),
{
    let first = start(module_name, cursor);
    let early = events.take(index + 1);
    let late = events.skip(index + 1);
    assert(events =~= early + late);
    assert forall|k: int| 0 <= k < early.len() implies !ends_stream(#[trigger] early[k]) by {
        assert(early[k] == events[k]);
    }
    lemma_unknown_module_before_end(module_name, cursor, early);
    lemma_run_concat(first, early, late);
    lemma_ended_consumer_stays(run(first, early), late);
}

/// The text that describes a stream error.
pub open spec fn stream_error_text(e: StreamErrorView) -> Seq<char> {
    match e {
        StreamErrorView::UnknownModule(name) => "Unknown module: "@ + name,
        StreamErrorView::EmptyBlockData => "Empty block data"@,
        StreamErrorView::Decode(text) => "Failed to decode block data: "@ + text,
        StreamErrorView::Terminated(text) => "Stream terminated with error: "@ + text,
    }
}

impl StreamError {
    /// The text that describes the error.
    pub fn message(&self) -> (text: String)
        ensures
            text@ == stream_error_text(self@),
    {
        match self {
            StreamError::UnknownModule(name) => {
                let mut text = String::from_str("Unknown module: ");
                text.append(name.as_str());
                text
            },
            StreamError::EmptyBlockData => String::from_str("Empty block data"),
            StreamError::Decode(cause) => {
                let mut text = String::from_str("Failed to decode block data: ");
                text.append(cause.as_str());
                text
            },
            StreamError::Terminated(cause) => {
                let mut text = String::from_str("Stream terminated with error: ");
                text.append(cause.as_str());
                text
            },
        }
    }
}

} // verus!
