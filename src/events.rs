//! Domain events published to the interface, and the classifier that turns
//! server-pushed messages into them.
use vstd::prelude::*;
use crate::json::{
    as_elements, as_number, is_object, json_document, json_elements, json_is_object, json_member,
    json_number, member, parse_json, same_text, text_field, text_member, text_view, unsigned_field,
    unsigned_member,
};

verus! {

/// One detection result carried by a progress message. The confidence and
/// the probabilities are kept as the JSON numbers the service sent.
pub struct DetectionResultItem {
    pub mode: String,
    pub result: String,
    pub confidence: Option<serde_json::Number>,
    pub probabilities: Vec<serde_json::Number>,
    pub processing_time: u64,
}

pub struct DetectionResultView {
    pub mode: Seq<char>,
    pub result: Seq<char>,
    pub confidence: Option<serde_json::Number>,
    pub probabilities: Seq<serde_json::Number>,
    pub processing_time: u64,
}

impl View for DetectionResultItem {
    type V = DetectionResultView;

    open spec fn view(&self) -> DetectionResultView {
        DetectionResultView {
            mode: self.mode@,
            result: self.result@,
            confidence: self.confidence,
            probabilities: self.probabilities@,
            processing_time: self.processing_time,
        }
    }
}

/// The payload of a task event, flattened as the interface receives it.
pub struct WsEventMessage {
    pub event_type: String,
    pub task_id: String,
    pub status: Option<String>,
    pub message: Option<String>,
    pub result: Option<DetectionResultItem>,
    pub total_items: Option<u32>,
    pub processed_items: Option<u32>,
    pub completed_results: Option<Vec<DetectionResultItem>>,
}

pub struct EventMessageView {
    pub event_type: Seq<char>,
    pub task_id: Seq<char>,
    pub status: Option<Seq<char>>,
    pub message: Option<Seq<char>>,
    pub result: Option<DetectionResultView>,
    pub total_items: Option<u32>,
    pub processed_items: Option<u32>,
    pub completed_results: Option<Seq<DetectionResultView>>,
}

impl View for WsEventMessage {
    type V = EventMessageView;

    open spec fn view(&self) -> EventMessageView {
        EventMessageView {
            event_type: self.event_type@,
            task_id: self.task_id@,
            status: text_view(self.status),
            message: text_view(self.message),
            result: match self.result {
                Some(r) => Some(r@),
                None => None,
            },
            total_items: self.total_items,
            processed_items: self.processed_items,
            completed_results: match self.completed_results {
                Some(v) => Some(v@.map_values(|r: DetectionResultItem| r@)),
                None => None,
            },
        }
    }
}

/// A typed notification for the interface.
pub enum WsEvent {
    Connected { client_id: String },
    TaskCompleted(WsEventMessage),
    TaskFailed(WsEventMessage),
    Progress(WsEventMessage),
    Disconnected,
}

pub enum WsEventView {
    Connected { client_id: Seq<char> },
    TaskCompleted(EventMessageView),
    TaskFailed(EventMessageView),
    Progress(EventMessageView),
    Disconnected,
}

impl View for WsEvent {
    type V = WsEventView;

    open spec fn view(&self) -> WsEventView {
        match self {
            WsEvent::Connected { client_id } => WsEventView::Connected { client_id: client_id@ },
            WsEvent::TaskCompleted(m) => WsEventView::TaskCompleted(m@),
            WsEvent::TaskFailed(m) => WsEventView::TaskFailed(m@),
            WsEvent::Progress(m) => WsEventView::Progress(m@),
            WsEvent::Disconnected => WsEventView::Disconnected,
        }
    }
}

impl WsEvent {
    /// The name under which the interface receives this event.
    pub open spec fn spec_channel(&self) -> Seq<char> {
        match self {
            WsEvent::Connected { .. } => "ws_connected"@,
            WsEvent::TaskCompleted(_) => "ws_task_completed"@,
            WsEvent::TaskFailed(_) => "ws_task_failed"@,
            WsEvent::Progress(_) => "ws_progress"@,
            WsEvent::Disconnected => "ws_disconnected"@,
        }
    }

    pub fn channel(&self) -> (r: String)
        ensures
            r@ == self.spec_channel(),
    {
        match self {
            WsEvent::Connected { .. } => String::from_str("ws_connected"),
            WsEvent::TaskCompleted(_) => String::from_str("ws_task_completed"),
            WsEvent::TaskFailed(_) => String::from_str("ws_task_failed"),
            WsEvent::Progress(_) => String::from_str("ws_progress"),
            WsEvent::Disconnected => String::from_str("ws_disconnected"),
        }
    }
}

/// Why a steady-state message produced no event.
#[derive(PartialEq, Eq, Structural, Clone, Copy, Debug)]
pub enum ClassifyError {
    /// The frame is not a JSON document.
    InvalidJson,
    /// A recognised message lacks its `data` object.
    MissingData,
}

/// The outcome of classifying one message: an event, or `None` for a
/// message type this client does not know (ignored, not a fault).
pub type Classified = Result<Option<WsEvent>, ClassifyError>;

pub open spec fn classified_view(c: Classified) -> Result<Option<WsEventView>, ClassifyError> {
    match c {
        Ok(Some(e)) => Ok(Some(e@)),
        Ok(None) => Ok(None),
        Err(e) => Err(e),
    }
}

/// The message type of a document; an absent or non-string `type` reads as empty.
pub open spec fn message_type(v: serde_json::Value) -> Seq<char> {
    match text_member(v, "type"@) {
        Some(t) => t,
        None => Seq::empty(),
    }
}

pub open spec fn is_progress_type(t: Seq<char>) -> bool {
    t == "progress"@ || t == "progress_update"@
}

/// The message types that produce events.
pub open spec fn is_known_type(t: Seq<char>) -> bool {
    t == "task_completed"@ || t == "task_failed"@ || is_progress_type(t)
}

pub open spec fn text_or(o: Option<Seq<char>>, d: Seq<char>) -> Seq<char> {
    match o {
        Some(s) => s,
        None => d,
    }
}

/// A count under `key`, cut to 32 bits as the interface carries it.
pub open spec fn count_member(d: serde_json::Value, key: Seq<char>) -> Option<u32> {
    match unsigned_member(d, key) {
        Some(n) => Some(n as u32),
        None => None,
    }
}

/// The total number of items: `total_items`, else `total`.
pub open spec fn total_count(d: serde_json::Value) -> Option<u32> {
    match count_member(d, "total_items"@) {
        Some(n) => Some(n),
        None => count_member(d, "total"@),
    }
}

/// The number of processed items: `processed_items`, else `current`, else `completed_items`.
pub open spec fn processed_count(d: serde_json::Value) -> Option<u32> {
    match count_member(d, "processed_items"@) {
        Some(n) => Some(n),
        None => match count_member(d, "current"@) {
            Some(n) => Some(n),
            None => count_member(d, "completed_items"@),
        },
    }
}

/// The JSON numbers among a sequence of values, in order.
pub open spec fn numbers_in(s: Seq<serde_json::Value>) -> Seq<serde_json::Number>
    decreases s.len(),
{
    if s.len() == 0 {
        Seq::empty()
    } else {
        let rest = numbers_in(s.drop_last());
        match json_number(s.last()) {
            Some(n) => rest.push(n),
            None => rest,
        }
    }
}

pub open spec fn probabilities_of(r: serde_json::Value) -> Seq<serde_json::Number> {
    match json_member(r, "probabilities"@) {
        Some(p) => match json_elements(p) {
            Some(s) => numbers_in(s),
            None => Seq::empty(),
        },
        None => Seq::empty(),
    }
}

/// The detection result read from a result object; absent fields read as
/// empty or zero.
pub open spec fn result_of(r: serde_json::Value) -> DetectionResultView {
    DetectionResultView {
        mode: text_or(text_member(r, "mode"@), ""@),
        result: text_or(text_member(r, "result"@), ""@),
        confidence: match json_member(r, "confidence"@) {
            Some(c) => json_number(c),
            None => None,
        },
        probabilities: probabilities_of(r),
        processing_time: match unsigned_member(r, "processing_time"@) {
            Some(t) => t,
            None => 0,
        },
    }
}

/// The result a progress message carries, when `current_result` is an object.
pub open spec fn progress_result(d: serde_json::Value) -> Option<DetectionResultView> {
    match json_member(d, "current_result"@) {
        Some(r) => if json_is_object(r) {
            Some(result_of(r))
        } else {
            None
        },
        None => None,
    }
}

pub open spec fn completed_view(d: serde_json::Value) -> EventMessageView {
    EventMessageView {
        event_type: "task_completed"@,
        task_id: text_or(text_member(d, "task_id"@), ""@),
        status: Some(text_or(text_member(d, "status"@), "completed"@)),
        message: text_member(d, "message"@),
        result: None,
        total_items: total_count(d),
        processed_items: processed_count(d),
        completed_results: None,
    }
}

pub open spec fn failed_view(d: serde_json::Value) -> EventMessageView {
    EventMessageView {
        event_type: "task_failed"@,
        task_id: text_or(text_member(d, "task_id"@), ""@),
        status: Some("failed"@),
        message: text_member(d, "message"@),
        result: None,
        total_items: None,
        processed_items: None,
        completed_results: None,
    }
}

pub open spec fn progress_view(d: serde_json::Value) -> EventMessageView {
    EventMessageView {
        event_type: "progress"@,
        task_id: text_or(text_member(d, "task_id"@), ""@),
        status: Some("running"@),
        message: text_member(d, "message"@),
        result: progress_result(d),
        total_items: total_count(d),
        processed_items: processed_count(d),
        completed_results: None,
    }
}

/// What a parsed steady-state message classifies as.
pub open spec fn classify_spec(v: serde_json::Value) -> Result<Option<WsEventView>, ClassifyError> {
    let t = message_type(v);
    if !is_known_type(t) {
        Ok(None)
    } else {
        match json_member(v, "data"@) {
            None => Err(ClassifyError::MissingData),
            Some(d) => if t == "task_completed"@ {
                Ok(Some(WsEventView::TaskCompleted(completed_view(d))))
            } else if t == "task_failed"@ {
                Ok(Some(WsEventView::TaskFailed(failed_view(d))))
            } else {
                Ok(Some(WsEventView::Progress(progress_view(d))))
            },
        }
    }
}

/// What a raw text frame classifies as.
pub open spec fn classify_text_spec(text: Seq<char>) -> Result<Option<WsEventView>, ClassifyError> {
    match json_document(text) {
        Some(v) => classify_spec(v),
        None => Err(ClassifyError::InvalidJson),
    }
}

fn text_or_else(o: Option<String>, d: &str) -> (r: String)
    ensures
        r@ == text_or(text_view(o), d@),
{
    match o {
        Some(s) => s,
        None => String::from_str(d),
    }
}

fn count_field(d: &serde_json::Value, key: &str) -> (r: Option<u32>)
    ensures
        r == count_member(*d, key@),
{
    match unsigned_field(d, key) {
        Some(n) => Some(#[verifier::truncate] (n as u32)),
        None => None,
    }
}

fn total_field(d: &serde_json::Value) -> (r: Option<u32>)
    ensures
        r == total_count(*d),
{
    match count_field(d, "total_items") {
        Some(n) => Some(n),
        None => count_field(d, "total"),
    }
}

fn processed_field(d: &serde_json::Value) -> (r: Option<u32>)
    ensures
        r == processed_count(*d),
{
    match count_field(d, "processed_items") {
        Some(n) => Some(n),
        None => match count_field(d, "current") {
            Some(n) => Some(n),
            None => count_field(d, "completed_items"),
        },
    }
}

/// Keeps the JSON numbers of `values`, in order, and drops everything else.
pub fn collect_numbers(values: &Vec<serde_json::Value>) -> (r: Vec<serde_json::Number>)
    ensures
        r@ == numbers_in(values@),
{
    let mut out: Vec<serde_json::Number> = Vec::new();
    let mut i: usize = 0;
    while i < values.len()
        invariant
            i <= values@.len(),
            out@ == numbers_in(values@.subrange(0, i as int)),
        decreases values@.len() - i,
    {
        assert(values@.subrange(0, i as int + 1).drop_last() =~= values@.subrange(0, i as int));
        match as_number(&values[i]) {
            Some(n) => out.push(n),
            None => {},
        }
        i = i + 1;
    }
    assert(values@.subrange(0, values@.len() as int) =~= values@);
    out
}

/// Reads a detection result object; absent fields read as empty or zero.
pub fn read_result(r: &serde_json::Value) -> (item: DetectionResultItem)
    ensures
        item@ == result_of(*r),
{
    let probabilities = match member(r, "probabilities") {
        Some(p) => match as_elements(&p) {
            Some(values) => collect_numbers(&values),
            None => Vec::new(),
        },
        None => Vec::new(),
    };
    let confidence = match member(r, "confidence") {
        Some(c) => as_number(&c),
        None => None,
    };
    let processing_time = match unsigned_field(r, "processing_time") {
        Some(t) => t,
        None => 0,
    };
    let item = DetectionResultItem {
        mode: text_or_else(text_field(r, "mode"), ""),
        result: text_or_else(text_field(r, "result"), ""),
        confidence,
        probabilities,
        processing_time,
    };
    assert(item.probabilities@ == probabilities_of(*r));
    item
}

fn completed_message(d: &serde_json::Value) -> (m: WsEventMessage)
    ensures
        m@ == completed_view(*d),
{
    WsEventMessage {
        event_type: String::from_str("task_completed"),
        task_id: text_or_else(text_field(d, "task_id"), ""),
        status: Some(text_or_else(text_field(d, "status"), "completed")),
        message: text_field(d, "message"),
        result: None,
        total_items: total_field(d),
        processed_items: processed_field(d),
        completed_results: None,
    }
}

fn failed_message(d: &serde_json::Value) -> (m: WsEventMessage)
    ensures
        m@ == failed_view(*d),
{
    WsEventMessage {
        event_type: String::from_str("task_failed"),
        task_id: text_or_else(text_field(d, "task_id"), ""),
        status: Some(String::from_str("failed")),
        message: text_field(d, "message"),
        result: None,
        total_items: None,
        processed_items: None,
        completed_results: None,
    }
}

fn progress_message(d: &serde_json::Value) -> (m: WsEventMessage)
    ensures
        m@ == progress_view(*d),
{
    let result = match member(d, "current_result") {
        Some(r) => if is_object(&r) {
            Some(read_result(&r))
        } else {
            None
        },
        None => None,
    };
    WsEventMessage {
        event_type: String::from_str("progress"),
        task_id: text_or_else(text_field(d, "task_id"), ""),
        status: Some(String::from_str("running")),
        message: text_field(d, "message"),
        result,
        total_items: total_field(d),
        processed_items: processed_field(d),
        completed_results: None,
    }
}

/// Classifies a parsed server message. Unknown message types are ignored
/// (`Ok(None)`); a known type without its `data` object is `MissingData`.
pub fn classify_value(v: &serde_json::Value) -> (r: Classified)
    ensures
        classified_view(r) == classify_spec(*v),
        !is_known_type(message_type(*v)) ==> r matches Ok(None),
{
    let t = match text_field(v, "type") {
        Some(t) => t,
        None => String::new(),
    };
    let completed = same_text(t.as_str(), "task_completed");
    let failed = same_text(t.as_str(), "task_failed");
    let progress = same_text(t.as_str(), "progress") || same_text(t.as_str(), "progress_update");
    if !(completed || failed || progress) {
        return Ok(None);
    }
    let d = match member(v, "data") {
        Some(d) => d,
        None => return Err(ClassifyError::MissingData),
    };
    if completed {
        Ok(Some(WsEvent::TaskCompleted(completed_message(&d))))
    } else if failed {
        Ok(Some(WsEvent::TaskFailed(failed_message(&d))))
    } else {
        Ok(Some(WsEvent::Progress(progress_message(&d))))
    }
}

/// Classifies a raw text frame: `InvalidJson` when it is not a JSON
/// document, else as `classify_value` says.
pub fn classify(text: &str) -> (r: Classified)
    ensures
        classified_view(r) == classify_text_spec(text@),
{
    match parse_json(text) {
        Some(v) => classify_value(&v),
        None => Err(ClassifyError::InvalidJson),
    }
}

/// Completion percentage `round(processed / total * 100)`, halves rounded
/// up; a total of zero (or an unknown count) gives 0.
pub fn progress_percent(total: Option<u32>, processed: Option<u32>) -> (r: u64)
    ensures
        match (total, processed) {
            (Some(t), Some(p)) => if t == 0 {
                r == 0
            } else {
                r == (200 * p + t) / (2 * t)
            },
            _ => r == 0,
        },
{
    match (total, processed) {
        (Some(t), Some(p)) => if t == 0 {
            0
        } else {
            (200 * (p as u64) + (t as u64)) / (2 * (t as u64))
        },
        _ => 0,
    }
}

} // verus!
