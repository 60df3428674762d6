//! What a sonnen battery reports, and the reader that collects it from the
//! battery's JSON API.
//!
//! The reader is a state machine: it names the next document it needs
//! (`next_request`), takes that document when it has been fetched
//! (`receive`), and hands out the collected status once it has all of them
//! (`status`). Fetching is left to the caller.
//!
//! A measurement the battery reports as a decimal number (amps, volts,
//! temperatures) is held as its text, quotes trimmed; the caller reads the
//! number out of it.
use vstd::prelude::*;

use crate::json::{check_numeric_member, entry_reading, member_reading, numeric_member, Json};

verus! {

/// The reading that stands for a measurement of zero.
pub open spec fn zero_reading() -> Seq<char> {
    seq!['0']
}

fn zero_text() -> (r: String)
    ensures
        r@ == zero_reading(),
{
    proof {
        reveal_strlit("0");
    }
    String::from_str("0")
}

/// One reading per phase of a three-phase line.
#[derive(Debug)]
pub struct Phases {
    pub l1: String,
    pub l2: String,
    pub l3: String,
}

impl View for Phases {
    type V = Seq<Seq<char>>;

    open spec fn view(&self) -> Seq<Seq<char>> {
        seq![self.l1@, self.l2@, self.l3@]
    }
}

/// The readings of a power meter, by direction of the flow it measures.
#[derive(Debug)]
pub struct Directions {
    pub production: Option<Phases>,
    pub consumption: Option<Phases>,
}

/// The view of an optional reading per phase.
pub open spec fn phases_view(p: Option<Phases>) -> Option<Seq<Seq<char>>> {
    match p {
        Some(x) => Some(x@),
        None => None,
    }
}

impl View for Directions {
    type V = (Option<Seq<Seq<char>>>, Option<Seq<Seq<char>>>);

    open spec fn view(&self) -> (Option<Seq<Seq<char>>>, Option<Seq<Seq<char>>>) {
        (phases_view(self.production), phases_view(self.consumption))
    }
}

/// Temperatures by probe.
#[derive(Debug)]
pub struct Probes {
    pub bdc: Option<String>,
    pub hmi: Option<String>,
    pub pu: Option<String>,
}

/// The view of an optional text.
pub open spec fn text_view(t: Option<String>) -> Option<Seq<char>> {
    match t {
        Some(x) => Some(x@),
        None => None,
    }
}

impl View for Probes {
    type V = (Option<Seq<char>>, Option<Seq<char>>, Option<Seq<char>>);

    open spec fn view(&self) -> (Option<Seq<char>>, Option<Seq<char>>, Option<Seq<char>>) {
        (text_view(self.bdc), text_view(self.hmi), text_view(self.pu))
    }
}

/// What a battery reports.
#[derive(Debug)]
pub struct SonnenStatus {
    pub online: bool,
    pub consumption_watts: i64,
    pub inverter_ac_frequency: i64,
    pub grid_feed_in_watts: i64,
    pub discharge_watts: i64,
    pub production_watts: i64,
    pub state_of_charge_percent: i64,
    pub inverter_ac_volts: i64,
    pub battery_volts: i64,
    pub temperatures: Probes,
    pub grid_frequency: String,
    pub grid_voltage: Phases,
    pub current: Directions,
    pub volts: Directions,
}

/// The mathematical value of a [`SonnenStatus`].
#[verifier::ext_equal]
pub struct StatusView {
    pub online: bool,
    pub consumption_watts: i64,
    pub inverter_ac_frequency: i64,
    pub grid_feed_in_watts: i64,
    pub discharge_watts: i64,
    pub production_watts: i64,
    pub state_of_charge_percent: i64,
    pub inverter_ac_volts: i64,
    pub battery_volts: i64,
    pub temperatures: (Option<Seq<char>>, Option<Seq<char>>, Option<Seq<char>>),
    pub grid_frequency: Seq<char>,
    pub grid_voltage: Seq<Seq<char>>,
    pub current: (Option<Seq<Seq<char>>>, Option<Seq<Seq<char>>>),
    pub volts: (Option<Seq<Seq<char>>>, Option<Seq<Seq<char>>>),
}

impl View for SonnenStatus {
    type V = StatusView;

    open spec fn view(&self) -> StatusView {
        StatusView {
            online: self.online,
            consumption_watts: self.consumption_watts,
            inverter_ac_frequency: self.inverter_ac_frequency,
            grid_feed_in_watts: self.grid_feed_in_watts,
            discharge_watts: self.discharge_watts,
            production_watts: self.production_watts,
            state_of_charge_percent: self.state_of_charge_percent,
            inverter_ac_volts: self.inverter_ac_volts,
            battery_volts: self.battery_volts,
            temperatures: self.temperatures@,
            grid_frequency: self.grid_frequency@,
            grid_voltage: self.grid_voltage@,
            current: self.current@,
            volts: self.volts@,
        }
    }
}

/// The status before anything has been read: offline, every count zero,
/// every measurement zero, no temperature and no meter reading.
pub open spec fn initial_status() -> StatusView {
    StatusView {
        online: false,
        consumption_watts: 0,
        inverter_ac_frequency: 0,
        grid_feed_in_watts: 0,
        discharge_watts: 0,
        production_watts: 0,
        state_of_charge_percent: 0,
        inverter_ac_volts: 0,
        battery_volts: 0,
        temperatures: (None, None, None),
        grid_frequency: zero_reading(),
        grid_voltage: seq![zero_reading(), zero_reading(), zero_reading()],
        current: (None, None),
        volts: (None, None),
    }
}

impl SonnenStatus {
    /// The status before anything has been read.
    pub fn new() -> (s: SonnenStatus)
        ensures
            s@ == initial_status(),
    {
        SonnenStatus {
            online: false,
            consumption_watts: 0,
            inverter_ac_frequency: 0,
            grid_feed_in_watts: 0,
            discharge_watts: 0,
            production_watts: 0,
            state_of_charge_percent: 0,
            inverter_ac_volts: 0,
            battery_volts: 0,
            temperatures: Probes { bdc: None, hmi: None, pu: None },
            grid_frequency: zero_text(),
            grid_voltage: Phases { l1: zero_text(), l2: zero_text(), l3: zero_text() },
            current: Directions { production: None, consumption: None },
            volts: Directions { production: None, consumption: None },
        }
    }
}

// ---------------------------------------------------------------------------
// The documents of the battery's API
// ---------------------------------------------------------------------------

/// The path of the main status document.
pub open spec fn status_path() -> Seq<char> {
    "/api/v1/status"@
}

/// The path of the power meter document.
pub open spec fn power_meter_path() -> Seq<char> {
    "/api/powermeter"@
}

/// The path of the inverter document.
pub open spec fn inverter_path() -> Seq<char> {
    "/api/inverter"@
}

/// The main status document holds every count the status needs, each as
/// an integer that fits in an `i64`.
pub open spec fn status_doc_ready(doc: Json) -> bool {
    &&& doc.spec_int_field("Consumption_W"@) is Some
    &&& doc.spec_int_field("Fac"@) is Some
    &&& doc.spec_int_field("GridFeedIn_W"@) is Some
    &&& doc.spec_int_field("Pac_total_W"@) is Some
    &&& doc.spec_int_field("Production_W"@) is Some
    &&& doc.spec_int_field("RSOC"@) is Some
    &&& doc.spec_int_field("Uac"@) is Some
    &&& doc.spec_int_field("Ubat"@) is Some
}

/// The status once the counts of the main status document are in it.
pub open spec fn after_main_status(st: StatusView, doc: Json) -> StatusView {
    StatusView {
        online: true,
        consumption_watts: doc.spec_int_field("Consumption_W"@).unwrap(),
        inverter_ac_frequency: doc.spec_int_field("Fac"@).unwrap(),
        grid_feed_in_watts: doc.spec_int_field("GridFeedIn_W"@).unwrap(),
        discharge_watts: doc.spec_int_field("Pac_total_W"@).unwrap(),
        production_watts: doc.spec_int_field("Production_W"@).unwrap(),
        state_of_charge_percent: doc.spec_int_field("RSOC"@).unwrap(),
        inverter_ac_volts: doc.spec_int_field("Uac"@).unwrap(),
        battery_volts: doc.spec_int_field("Ubat"@).unwrap(),
        ..st
    }
}

/// A meter object holds the current and the voltage of each phase, each a
/// reading that reads as an `f64`.
pub open spec fn meter_ready(e: Seq<(String, Json)>) -> bool {
    &&& numeric_member(e, "a_l1"@)
    &&& numeric_member(e, "a_l2"@)
    &&& numeric_member(e, "a_l3"@)
    &&& numeric_member(e, "v_l1_n"@)
    &&& numeric_member(e, "v_l2_n"@)
    &&& numeric_member(e, "v_l3_n"@)
}

/// The power meter document holds a production meter ("4_1") and a
/// consumption meter ("5_1"), each complete.
pub open spec fn meter_doc_ready(doc: Json) -> bool {
    &&& doc.spec_object_field("4_1"@) matches Some(p) && meter_ready(p)
    &&& doc.spec_object_field("5_1"@) matches Some(c) && meter_ready(c)
}

/// The currents of a meter object, by phase.
pub open spec fn meter_currents(e: Seq<(String, Json)>) -> Seq<Seq<char>> {
    seq![member_reading(e, "a_l1"@), member_reading(e, "a_l2"@), member_reading(e, "a_l3"@)]
}

/// The voltages of a meter object, by phase.
pub open spec fn meter_volts(e: Seq<(String, Json)>) -> Seq<Seq<char>> {
    seq![member_reading(e, "v_l1_n"@), member_reading(e, "v_l2_n"@), member_reading(e, "v_l3_n"@)]
}

/// The status once the readings of the power meter document are in it.
pub open spec fn after_power_meter(st: StatusView, doc: Json) -> StatusView {
    let p = doc.spec_object_field("4_1"@).unwrap();
    let c = doc.spec_object_field("5_1"@).unwrap();
    StatusView {
        current: (Some(meter_currents(p)), Some(meter_currents(c))),
        volts: (Some(meter_volts(p)), Some(meter_volts(c))),
        ..st
    }
}

/// The inverter document holds a "status" object with the temperatures of
/// three probes, the grid frequency and the voltage of each grid phase,
/// each a reading that reads as an `f64`.
pub open spec fn inverter_doc_ready(doc: Json) -> bool {
    &&& doc.spec_object_field("status"@) matches Some(s) && {
        &&& numeric_member(s, "tempbdc"@)
        &&& numeric_member(s, "temphmi"@)
        &&& numeric_member(s, "temppu"@)
        &&& numeric_member(s, "fac"@)
        &&& numeric_member(s, "uac1"@)
        &&& numeric_member(s, "uac2"@)
        &&& numeric_member(s, "uac3"@)
    }
}

/// The status once the readings of the inverter document are in it.
pub open spec fn after_inverter(st: StatusView, doc: Json) -> StatusView {
    let s = doc.spec_object_field("status"@).unwrap();
    StatusView {
        temperatures: (
            Some(member_reading(s, "tempbdc"@)),
            Some(member_reading(s, "temphmi"@)),
            Some(member_reading(s, "temppu"@)),
        ),
        grid_frequency: member_reading(s, "fac"@),
        grid_voltage: seq![
            member_reading(s, "uac1"@),
            member_reading(s, "uac2"@),
            member_reading(s, "uac3"@),
        ],
        ..st
    }
}

/// Whether the main status document holds every count the status needs.
pub fn check_status_doc(doc: &Json) -> (r: bool)
    ensures
        r == status_doc_ready(*doc),
{
    doc.int_field("Consumption_W").is_some() && doc.int_field("Fac").is_some()
        && doc.int_field("GridFeedIn_W").is_some() && doc.int_field("Pac_total_W").is_some()
        && doc.int_field("Production_W").is_some() && doc.int_field("RSOC").is_some()
        && doc.int_field("Uac").is_some() && doc.int_field("Ubat").is_some()
}

fn check_meter(e: &Vec<(String, Json)>) -> (r: bool)
    ensures
        r == meter_ready(e@),
{
    check_numeric_member(e, "a_l1") && check_numeric_member(e, "a_l2") && check_numeric_member(
        e,
        "a_l3",
    ) && check_numeric_member(e, "v_l1_n") && check_numeric_member(e, "v_l2_n")
        && check_numeric_member(e, "v_l3_n")
}

/// Whether the power meter document holds both complete meters.
pub fn check_meter_doc(doc: &Json) -> (r: bool)
    ensures
        r == meter_doc_ready(*doc),
{
    let prod = match doc.object_field("4_1") {
        Some(p) => check_meter(p),
        None => false,
    };
    let cons = match doc.object_field("5_1") {
        Some(c) => check_meter(c),
        None => false,
    };
    prod && cons
}

/// Whether the inverter document holds every reading the status needs.
pub fn check_inverter_doc(doc: &Json) -> (r: bool)
    ensures
        r == inverter_doc_ready(*doc),
{
    match doc.object_field("status") {
        Some(s) => check_numeric_member(s, "tempbdc") && check_numeric_member(s, "temphmi")
            && check_numeric_member(s, "temppu") && check_numeric_member(s, "fac")
            && check_numeric_member(s, "uac1") && check_numeric_member(s, "uac2")
            && check_numeric_member(s, "uac3"),
        None => false,
    }
}

fn meter_phases_current(e: &Vec<(String, Json)>) -> (r: Phases)
    requires
        meter_ready(e@),
    ensures
        r@ == meter_currents(e@),
{
    Phases {
        l1: entry_reading(e, "a_l1"),
        l2: entry_reading(e, "a_l2"),
        l3: entry_reading(e, "a_l3"),
    }
}

fn meter_phases_volts(e: &Vec<(String, Json)>) -> (r: Phases)
    requires
        meter_ready(e@),
    ensures
        r@ == meter_volts(e@),
{
    Phases {
        l1: entry_reading(e, "v_l1_n"),
        l2: entry_reading(e, "v_l2_n"),
        l3: entry_reading(e, "v_l3_n"),
    }
}

// ---------------------------------------------------------------------------
// The reader
// ---------------------------------------------------------------------------

/// Which document the reader needs next.
#[derive(PartialEq, Eq, Structural, Clone, Copy, Debug)]
pub enum ReadPhase {
    /// The main status document.
    MainStatus,
    /// The power meter document.
    PowerMeter,
    /// Nothing: the status is complete.
    Done,
}

/// Collects the status of the battery whose API lives at `url`. Its status
/// is always the one the documents it took so far make of the initial
/// status, in the order it asks for them.
#[derive(Debug)]
pub struct SonnenReader {
    url: String,
    status: SonnenStatus,
    phase: ReadPhase,
}

/// The mathematical value of a [`SonnenReader`].
pub struct ReaderView {
    pub url: Seq<char>,
    pub status: StatusView,
    pub phase: ReadPhase,
}

impl View for SonnenReader {
    type V = ReaderView;

    closed spec fn view(&self) -> ReaderView {
        ReaderView { url: self.url@, status: self.status@, phase: self.phase }
    }
}

impl SonnenReader {
    /// The status is the initial one, once the reader took the main status
    /// document the one that document makes of it, and once it also took
    /// the power meter document the one that document makes of that.
    #[verifier::type_invariant]
    spec fn status_from_documents(self) -> bool {
        match self.phase {
            ReadPhase::MainStatus => self.status@ == initial_status(),
            ReadPhase::PowerMeter => exists|m: Json|
                status_doc_ready(m) && self.status@ == #[trigger] after_main_status(
                    initial_status(),
                    m,
                ),
            ReadPhase::Done => exists|m: Json, p: Json|
                status_doc_ready(m) && meter_doc_ready(p) && self.status@ == #[trigger] after_power_meter(
                    after_main_status(initial_status(), m),
                    p,
                ),
        }
    }
}

impl ReaderView {
    /// The address of the document the reader needs next, if any.
    pub open spec fn next_request(self) -> Option<Seq<char>> {
        match self.phase {
            ReadPhase::MainStatus => Some(self.url + status_path()),
            ReadPhase::PowerMeter => Some(self.url + power_meter_path()),
            ReadPhase::Done => None,
        }
    }

    /// Whether `doc` is a document the reader can take now.
    pub open spec fn accepts(self, doc: Json) -> bool {
        match self.phase {
            ReadPhase::MainStatus => status_doc_ready(doc),
            ReadPhase::PowerMeter => meter_doc_ready(doc),
            ReadPhase::Done => false,
        }
    }

    /// The reader once it has taken `doc`.
    pub open spec fn receive(self, doc: Json) -> ReaderView {
        match self.phase {
            ReadPhase::MainStatus => ReaderView {
                status: after_main_status(self.status, doc),
                phase: ReadPhase::PowerMeter,
                ..self
            },
            ReadPhase::PowerMeter => ReaderView {
                status: after_power_meter(self.status, doc),
                phase: ReadPhase::Done,
                ..self
            },
            ReadPhase::Done => self,
        }
    }

    /// The status the reader hands out once it is done.
    pub open spec fn finished_status(self) -> StatusView {
        StatusView { online: true, ..self.status }
    }
}

/// A reader that has not read anything from the battery at `url`.
pub open spec fn fresh_reader(url: Seq<char>) -> ReaderView {
    ReaderView { url, status: initial_status(), phase: ReadPhase::MainStatus }
}

/// The status a reader of `url` hands out once it has taken `main_doc`
/// and then `meter_doc`.
pub open spec fn read_status(url: Seq<char>, main_doc: Json, meter_doc: Json) -> StatusView {
    fresh_reader(url).receive(main_doc).receive(meter_doc).finished_status()
}

/// A status read from a battery: what a fresh reader hands out once it has
/// taken a complete main status document and a complete power meter document.
pub open spec fn read_from_battery(st: StatusView) -> bool {
    exists|url: Seq<char>, main_doc: Json, meter_doc: Json|
        status_doc_ready(main_doc) && meter_doc_ready(meter_doc) && st == #[trigger] read_status(
            url,
            main_doc,
            meter_doc,
        )
}

impl SonnenReader {
    /// A reader for the battery whose API lives at `url`.
    pub fn new(url: &str) -> (r: SonnenReader)
        ensures
            r@ == fresh_reader(url@),
    {
        SonnenReader { url: url.to_owned(), status: SonnenStatus::new(), phase: ReadPhase::MainStatus }
    }

    /// Which document the reader needs next.
    pub fn phase(&self) -> (p: ReadPhase)
        ensures
            p == self@.phase,
    {
        self.phase
    }

    /// The status collected so far.
    pub fn current_status(&self) -> (s: &SonnenStatus)
        ensures
            s@ == self@.status,
    {
        &self.status
    }

    /// The address of the document at `suffix` of the battery's API.
    pub fn fetch_url(&self, suffix: &str) -> (r: String)
        ensures
            r@ == self@.url + suffix@,
    {
        let mut u = self.url.clone();
        u.append(suffix);
        u
    }

    /// The address of the document the reader needs next, if any.
    pub fn next_request(&self) -> (r: Option<String>)
        ensures
            match r {
                Some(u) => self@.next_request() == Some(u@),
                None => self@.next_request() is None,
            },
    {
        match self.phase {
            ReadPhase::MainStatus => Some(self.fetch_url("/api/v1/status")),
            ReadPhase::PowerMeter => Some(self.fetch_url("/api/powermeter")),
            ReadPhase::Done => None,
        }
    }

    /// Whether `doc` is a document the reader can take now.
    pub fn accepts(&self, doc: &Json) -> (r: bool)
        ensures
            r == self@.accepts(*doc),
    {
        match self.phase {
            ReadPhase::MainStatus => check_status_doc(doc),
            ReadPhase::PowerMeter => check_meter_doc(doc),
            ReadPhase::Done => false,
        }
    }

    /// Takes the document the reader asked for.
    pub fn receive(&mut self, doc: &Json)
        requires
            old(self)@.accepts(*doc),
        ensures
            final(self)@ == old(self)@.receive(*doc),
    {
        let mut r = SonnenReader {
            url: String::new(),
            status: SonnenStatus::new(),
            phase: ReadPhase::MainStatus,
        };
        std::mem::swap(&mut r, self);
        proof {
            use_type_invariant(&r);
        }
        let ghost before = r@;
        let SonnenReader { url, mut status, phase } = r;
        match phase {
            ReadPhase::MainStatus => {
                status.main_status(doc);
                *self = SonnenReader { url, status, phase: ReadPhase::PowerMeter };
            },
            ReadPhase::PowerMeter => {
                let ghost m = choose|m: Json|
                    status_doc_ready(m) && before.status == #[trigger] after_main_status(
                        initial_status(),
                        m,
                    );
                status.power_meter(doc);
                assert(status@ == after_power_meter(after_main_status(initial_status(), m), *doc));
                *self = SonnenReader { url, status, phase: ReadPhase::Done };
            },
            ReadPhase::Done => {
                *self = SonnenReader { url, status, phase: ReadPhase::Done };
            },
        }
    }

    /// The status the reader collected; it marks the battery online. It is
    /// a status read from a battery.
    pub fn status(self) -> (s: SonnenStatus)
        requires
            self@.phase == ReadPhase::Done,
        ensures
            s@ == self@.finished_status(),
            read_from_battery(s@),
    {
        proof {
            use_type_invariant(&self);
        }
        let ghost v = self@;
        let SonnenReader { url, status, phase } = self;
        let mut st = status;
        st.online = true;
        proof {
            let (m, p) = choose|m: Json, p: Json|
                status_doc_ready(m) && meter_doc_ready(p) && v.status == #[trigger] after_power_meter(
                    after_main_status(initial_status(), m),
                    p,
                );
            assert(st@ =~= read_status(v.url, m, p));
        }
        st
    }
}

impl SonnenStatus {
    /// Copies the counts of the main status document into the status and
    /// marks the battery online.
    pub fn main_status(&mut self, doc: &Json)
        requires
            status_doc_ready(*doc),
        ensures
            final(self)@ == after_main_status(old(self)@, *doc),
    {
        self.online = true;
        self.consumption_watts = doc.int_field("Consumption_W").unwrap();
        self.inverter_ac_frequency = doc.int_field("Fac").unwrap();
        self.grid_feed_in_watts = doc.int_field("GridFeedIn_W").unwrap();
        self.discharge_watts = doc.int_field("Pac_total_W").unwrap();
        self.production_watts = doc.int_field("Production_W").unwrap();
        self.state_of_charge_percent = doc.int_field("RSOC").unwrap();
        self.inverter_ac_volts = doc.int_field("Uac").unwrap();
        self.battery_volts = doc.int_field("Ubat").unwrap();
        assert(self@ =~= after_main_status(old(self)@, *doc));
    }

    /// Copies the readings of the inverter document into the status. (The
    /// reader never asks for that document.)
    pub fn inverter(&mut self, doc: &Json)
        requires
            inverter_doc_ready(*doc),
        ensures
            final(self)@ == after_inverter(old(self)@, *doc),
    {
        let s = doc.object_field("status").unwrap();
        self.temperatures.bdc = Some(entry_reading(s, "tempbdc"));
        self.temperatures.hmi = Some(entry_reading(s, "temphmi"));
        self.temperatures.pu = Some(entry_reading(s, "temppu"));
        self.grid_frequency = entry_reading(s, "fac");
        self.grid_voltage.l1 = entry_reading(s, "uac1");
        self.grid_voltage.l2 = entry_reading(s, "uac2");
        self.grid_voltage.l3 = entry_reading(s, "uac3");
        assert(self@ =~= after_inverter(old(self)@, *doc));
    }

    /// Copies the readings of the power meter document into the status.
    pub fn power_meter(&mut self, doc: &Json)
        requires
            meter_doc_ready(*doc),
        ensures
            final(self)@ == after_power_meter(old(self)@, *doc),
    {
        let prod = doc.object_field("4_1").unwrap();
        let cons = doc.object_field("5_1").unwrap();
        self.current = Directions {
            production: Some(meter_phases_current(prod)),
            consumption: Some(meter_phases_current(cons)),
        };
        self.volts = Directions {
            production: Some(meter_phases_volts(prod)),
            consumption: Some(meter_phases_volts(cons)),
        };
        assert(self@ =~= after_power_meter(old(self)@, *doc));
    }
}

} // verus!
