//! What the exporter serves: its landing page, and the samples of the
//! gauges it exports for each battery.
//!
//! A sample names a gauge, gives the values of the gauge's labels, and
//! gives the value to set: an integer for an integer gauge, the text of a
//! decimal reading for a floating-point gauge. Publishing the samples in
//! a metrics registry and rendering it is left to the caller. The samples
//! of one battery come in a fixed order: temperatures by probe "bdc",
//! "hmi", "pu", and meter readings "production" before "consumption". No
//! two of them set the same gauge with the same label values, so the values
//! a registry ends up with do not depend on that order.
use vstd::prelude::*;

use crate::sonnen_reader::{Phases, Probes, SonnenStatus, StatusView};
use prometheus::Encoder;

verus! {

/// prometheus's encoder for the text exposition format.
#[verifier::external_type_specification]
#[verifier::external_body]
pub struct ExTextEncoder(prometheus::TextEncoder);

/// prometheus's `TextEncoder::new`: an encoder for the text exposition
/// format (a unit struct; nothing about it is claimed).
#[verifier::external_body]
fn new_text_encoder() -> prometheus::TextEncoder {
    prometheus::TextEncoder::new()
}

/// The media type of the text exposition format, as prometheus defines it
/// (its constant `TEXT_FORMAT`).
pub open spec fn text_format() -> Seq<char> {
    "text/plain; version=0.0.4"@
}

/// prometheus's `Encoder::format_type` for the text encoder: claimed to be
/// the text of `TEXT_FORMAT`, "text/plain; version=0.0.4", which is what
/// the crate's source returns.
#[verifier::external_body]
fn text_format_type(e: &prometheus::TextEncoder) -> (r: String)
    ensures
        r@ == text_format(),
{
    e.format_type().to_owned()
}

/// A page the exporter serves.
#[derive(Debug)]
pub struct Page {
    pub content_type: String,
    pub body: String,
}

/// The exporter's landing page.
pub open spec fn landing_page() -> Seq<char> {
    "<html>
<head><title>Sonnen Exporter</title></head>
<body>
<h1>Sonnen Exporter</h1>
<p><a href=\"/metrics\">Metrics</a></p>
</body>
"@
}

/// The landing page, served as HTML.
pub fn index() -> (p: Page)
    ensures
        p.content_type@ == "text/html"@,
        p.body@ == landing_page(),
{
    Page {
        content_type: String::from_str("text/html"),
        body: String::from_str(
            "<html>
<head><title>Sonnen Exporter</title></head>
<body>
<h1>Sonnen Exporter</h1>
<p><a href=\"/metrics\">Metrics</a></p>
</body>
",
        ),
    }
}

/// The metrics page: `body` (the exposition of the gauges, rendered by the
/// metrics registry) served in the text exposition format.
pub fn metrics_page(body: String) -> (p: Page)
    ensures
        p.content_type@ == text_format(),
        p.body@ == body@,
{
    let encoder = new_text_encoder();
    Page { content_type: text_format_type(&encoder), body }
}

/// The gauges the exporter exports.
#[derive(PartialEq, Eq, Structural, Clone, Copy, Debug)]
pub enum Gauge {
    BuildInfo,
    Online,
    ConsumptionWatts,
    InverterAcFreq,
    FeedInWatts,
    DischargeWatts,
    ProductionWatts,
    StateOfCharge,
    InverterVolts,
    BatteryVolts,
    Temperature,
    GridFrequency,
    GridVoltage,
    MeterCurrent,
    MeterVolts,
}

/// The views of a sequence of texts.
pub open spec fn texts(v: Seq<String>) -> Seq<Seq<char>> {
    v.map_values(|s: String| s@)
}

impl Gauge {
    /// The metric name of the gauge.
    pub open spec fn spec_name(self) -> Seq<char> {
        match self {
            Gauge::BuildInfo => "sonnen_build_info"@,
            Gauge::Online => "sonnen_online"@,
            Gauge::ConsumptionWatts => "sonnen_consumption_watts"@,
            Gauge::InverterAcFreq => "sonnen_frequency_inverter"@,
            Gauge::FeedInWatts => "sonnen_grid_feed_in_watts"@,
            Gauge::DischargeWatts => "sonnen_discharge_watts"@,
            Gauge::ProductionWatts => "sonnen_production_watts"@,
            Gauge::StateOfCharge => "sonnen_state_of_charge_percent"@,
            Gauge::InverterVolts => "sonnen_inverter_ac_volts"@,
            Gauge::BatteryVolts => "sonnen_battery_volts"@,
            Gauge::Temperature => "sonnen_temperature"@,
            Gauge::GridFrequency => "sonnen_frequency_grid"@,
            Gauge::GridVoltage => "sonnen_grid_volts"@,
            Gauge::MeterCurrent => "sonnen_meter_current"@,
            Gauge::MeterVolts => "sonnen_meter_volts"@,
        }
    }

    /// The help text of the gauge.
    pub open spec fn spec_help(self) -> Seq<char> {
        match self {
            Gauge::BuildInfo => "A metric with a constant '1' value labeled by version, revision and rustversion"@,
            Gauge::Online => "Metric scraping successful"@,
            Gauge::ConsumptionWatts => "Number of watts being consumed"@,
            Gauge::InverterAcFreq => "Frequency of AC inverter"@,
            Gauge::FeedInWatts => "Number of watts being fed into the grid (negative denotes grid purchase)"@,
            Gauge::DischargeWatts => "Number of watts being discharged by the battery (negative means battery charging)"@,
            Gauge::ProductionWatts => "Number of watts being produced by solar"@,
            Gauge::StateOfCharge => "Percent charged of the battery"@,
            Gauge::InverterVolts => "Number of volts produced by the inverter"@,
            Gauge::BatteryVolts => "Number of volts produced by the battery"@,
            Gauge::Temperature => "Temperature of different probes in Celcius"@,
            Gauge::GridFrequency => "Frequency of grid"@,
            Gauge::GridVoltage => "Number of volts of each grid phase"@,
            Gauge::MeterCurrent => "Number of amps of each power meter phase"@,
            Gauge::MeterVolts => "Number of volts of each power meter phase"@,
        }
    }

    /// The names of the gauge's labels, in order.
    pub open spec fn spec_label_names(self) -> Seq<Seq<char>> {
        match self {
            Gauge::BuildInfo => seq!["version"@, "revision"@, "rustversion"@],
            Gauge::Temperature => seq!["host"@, "sn"@, "probe"@],
            Gauge::GridVoltage => seq!["host"@, "sn"@, "phase"@],
            Gauge::MeterCurrent => seq!["host"@, "sn"@, "direction"@, "phase"@],
            Gauge::MeterVolts => seq!["host"@, "sn"@, "direction"@, "phase"@],
            _ => seq!["host"@, "sn"@],
        }
    }

    /// Whether the gauge holds integers (otherwise it holds decimal numbers).
    pub open spec fn spec_is_int(self) -> bool {
        match self {
            Gauge::BuildInfo => false,
            Gauge::Temperature => false,
            Gauge::GridFrequency => false,
            Gauge::GridVoltage => false,
            Gauge::MeterCurrent => false,
            Gauge::MeterVolts => false,
            _ => true,
        }
    }

    /// Every gauge, in declaration order.
    pub open spec fn spec_all() -> Seq<Gauge> {
        seq![
            Gauge::BuildInfo,
            Gauge::Online,
            Gauge::ConsumptionWatts,
            Gauge::InverterAcFreq,
            Gauge::FeedInWatts,
            Gauge::DischargeWatts,
            Gauge::ProductionWatts,
            Gauge::StateOfCharge,
            Gauge::InverterVolts,
            Gauge::BatteryVolts,
            Gauge::Temperature,
            Gauge::GridFrequency,
            Gauge::GridVoltage,
            Gauge::MeterCurrent,
            Gauge::MeterVolts,
        ]
    }

    /// Every gauge is listed by [`Gauge::all`].
    pub proof fn lemma_all_lists_every_gauge(g: Gauge)
        ensures
            Self::spec_all().contains(g),
    {
        let a = Self::spec_all();
        match g {
            Gauge::BuildInfo => assert(a[0] == g),
            Gauge::Online => assert(a[1] == g),
            Gauge::ConsumptionWatts => assert(a[2] == g),
            Gauge::InverterAcFreq => assert(a[3] == g),
            Gauge::FeedInWatts => assert(a[4] == g),
            Gauge::DischargeWatts => assert(a[5] == g),
            Gauge::ProductionWatts => assert(a[6] == g),
            Gauge::StateOfCharge => assert(a[7] == g),
            Gauge::InverterVolts => assert(a[8] == g),
            Gauge::BatteryVolts => assert(a[9] == g),
            Gauge::Temperature => assert(a[10] == g),
            Gauge::GridFrequency => assert(a[11] == g),
            Gauge::GridVoltage => assert(a[12] == g),
            Gauge::MeterCurrent => assert(a[13] == g),
            Gauge::MeterVolts => assert(a[14] == g),
        }
    }

    /// Every gauge, in declaration order.
    pub fn all() -> (r: Vec<Gauge>)
        ensures
            r@ == Self::spec_all(),
    {
        let r = vec![
            Gauge::BuildInfo,
            Gauge::Online,
            Gauge::ConsumptionWatts,
            Gauge::InverterAcFreq,
            Gauge::FeedInWatts,
            Gauge::DischargeWatts,
            Gauge::ProductionWatts,
            Gauge::StateOfCharge,
            Gauge::InverterVolts,
            Gauge::BatteryVolts,
            Gauge::Temperature,
            Gauge::GridFrequency,
            Gauge::GridVoltage,
            Gauge::MeterCurrent,
            Gauge::MeterVolts,
        ];
        assert(r@ =~= Self::spec_all());
        r
    }

    /// The metric name of the gauge.
    pub fn name(&self) -> (r: &'static str)
        ensures
            r@ == self.spec_name(),
    {
        match self {
            Gauge::BuildInfo => "sonnen_build_info",
            Gauge::Online => "sonnen_online",
            Gauge::ConsumptionWatts => "sonnen_consumption_watts",
            Gauge::InverterAcFreq => "sonnen_frequency_inverter",
            Gauge::FeedInWatts => "sonnen_grid_feed_in_watts",
            Gauge::DischargeWatts => "sonnen_discharge_watts",
            Gauge::ProductionWatts => "sonnen_production_watts",
            Gauge::StateOfCharge => "sonnen_state_of_charge_percent",
            Gauge::InverterVolts => "sonnen_inverter_ac_volts",
            Gauge::BatteryVolts => "sonnen_battery_volts",
            Gauge::Temperature => "sonnen_temperature",
            Gauge::GridFrequency => "sonnen_frequency_grid",
            Gauge::GridVoltage => "sonnen_grid_volts",
            Gauge::MeterCurrent => "sonnen_meter_current",
            Gauge::MeterVolts => "sonnen_meter_volts",
        }
    }

    /// The help text of the gauge.
    pub fn help(&self) -> (r: &'static str)
        ensures
            r@ == self.spec_help(),
    {
        match self {
            Gauge::BuildInfo => "A metric with a constant '1' value labeled by version, revision and rustversion",
            Gauge::Online => "Metric scraping successful",
            Gauge::ConsumptionWatts => "Number of watts being consumed",
            Gauge::InverterAcFreq => "Frequency of AC inverter",
            Gauge::FeedInWatts => "Number of watts being fed into the grid (negative denotes grid purchase)",
            Gauge::DischargeWatts => "Number of watts being discharged by the battery (negative means battery charging)",
            Gauge::ProductionWatts => "Number of watts being produced by solar",
            Gauge::StateOfCharge => "Percent charged of the battery",
            Gauge::InverterVolts => "Number of volts produced by the inverter",
            Gauge::BatteryVolts => "Number of volts produced by the battery",
            Gauge::Temperature => "Temperature of different probes in Celcius",
            Gauge::GridFrequency => "Frequency of grid",
            Gauge::GridVoltage => "Number of volts of each grid phase",
            Gauge::MeterCurrent => "Number of amps of each power meter phase",
            Gauge::MeterVolts => "Number of volts of each power meter phase",
        }
    }

    /// The names of the gauge's labels, in order.
    pub fn label_names(&self) -> (r: Vec<String>)
        ensures
            texts(r@) == self.spec_label_names(),
    {
        let mut r: Vec<String> = Vec::new();
        match self {
            Gauge::BuildInfo => {
                r.push(String::from_str("version"));
                r.push(String::from_str("revision"));
                r.push(String::from_str("rustversion"));
            },
            _ => {
                r.push(String::from_str("host"));
                r.push(String::from_str("sn"));
                match self {
                    Gauge::Temperature => {
                        r.push(String::from_str("probe"));
                    },
                    Gauge::GridVoltage => {
                        r.push(String::from_str("phase"));
                    },
                    Gauge::MeterCurrent | Gauge::MeterVolts => {
                        r.push(String::from_str("direction"));
                        r.push(String::from_str("phase"));
                    },
                    _ => {},
                }
            },
        }
        assert(texts(r@) =~= self.spec_label_names());
        r
    }

    /// Whether the gauge holds integers (otherwise it holds decimal numbers).
    pub fn is_int(&self) -> (r: bool)
        ensures
            r == self.spec_is_int(),
    {
        match self {
            Gauge::BuildInfo | Gauge::Temperature | Gauge::GridFrequency | Gauge::GridVoltage
            | Gauge::MeterCurrent | Gauge::MeterVolts => false,
            _ => true,
        }
    }
}

/// The value a sample sets its gauge to.
#[derive(Debug)]
pub enum SampleValue {
    /// An integer, for an integer gauge.
    Int(i64),
    /// The text of a decimal reading, for a floating-point gauge.
    Reading(String),
}

/// A gauge, the values of its labels, and the value to set it to.
#[derive(Debug)]
pub struct Sample {
    pub gauge: Gauge,
    pub labels: Vec<String>,
    pub value: SampleValue,
}

/// The mathematical value of a [`SampleValue`].
pub enum ValueView {
    Int(i64),
    Reading(Seq<char>),
}

/// The mathematical value of a [`Sample`].
pub struct SampleView {
    pub gauge: Gauge,
    pub labels: Seq<Seq<char>>,
    pub value: ValueView,
}

impl View for Sample {
    type V = SampleView;

    open spec fn view(&self) -> SampleView {
        SampleView {
            gauge: self.gauge,
            labels: texts(self.labels@),
            value: match self.value {
                SampleValue::Int(i) => ValueView::Int(i),
                SampleValue::Reading(t) => ValueView::Reading(t@),
            },
        }
    }
}

/// The views of a sequence of samples.
pub open spec fn samples_view(s: Seq<Sample>) -> Seq<SampleView> {
    s.map_values(|x: Sample| x@)
}

/// A sample fits its gauge: one value per label of the gauge, and a value
/// of the kind the gauge holds.
pub open spec fn fits_gauge(s: SampleView) -> bool {
    &&& s.labels.len() == s.gauge.spec_label_names().len()
    &&& (s.value is Int) == s.gauge.spec_is_int()
}

/// An integer sample of a battery's gauge.
pub open spec fn int_sample(g: Gauge, host: Seq<char>, sn: Seq<char>, v: i64) -> SampleView {
    SampleView { gauge: g, labels: seq![host, sn], value: ValueView::Int(v) }
}

/// A reading sample.
pub open spec fn reading_sample(g: Gauge, labels: Seq<Seq<char>>, r: Seq<char>) -> SampleView {
    SampleView { gauge: g, labels, value: ValueView::Reading(r) }
}

/// The label of the phase at position `i` (counting from zero): "1", "2", "3".
pub open spec fn phase_label(i: int) -> Seq<char> {
    if i == 0 {
        "1"@
    } else if i == 1 {
        "2"@
    } else {
        "3"@
    }
}

/// One sample per phase, labelled `labels` and the phase.
pub open spec fn phase_samples(g: Gauge, labels: Seq<Seq<char>>, phases: Seq<Seq<char>>) -> Seq<
    SampleView,
> {
    seq![
        reading_sample(g, labels.push(phase_label(0)), phases[0]),
        reading_sample(g, labels.push(phase_label(1)), phases[1]),
        reading_sample(g, labels.push(phase_label(2)), phases[2]),
    ]
}

/// The sample of one probe's temperature, if the probe has one.
pub open spec fn probe_sample(
    host: Seq<char>,
    sn: Seq<char>,
    probe: Seq<char>,
    t: Option<Seq<char>>,
) -> Seq<SampleView> {
    match t {
        Some(r) => seq![reading_sample(Gauge::Temperature, seq![host, sn, probe], r)],
        None => Seq::empty(),
    }
}

/// The samples of the temperatures: "bdc", "hmi", then "pu".
pub open spec fn temperature_samples(
    host: Seq<char>,
    sn: Seq<char>,
    t: (Option<Seq<char>>, Option<Seq<char>>, Option<Seq<char>>),
) -> Seq<SampleView> {
    probe_sample(host, sn, "bdc"@, t.0) + probe_sample(host, sn, "hmi"@, t.1) + probe_sample(
        host,
        sn,
        "pu"@,
        t.2,
    )
}

/// The samples of one direction of a power meter, if it has readings.
pub open spec fn direction_samples(
    g: Gauge,
    host: Seq<char>,
    sn: Seq<char>,
    direction: Seq<char>,
    p: Option<Seq<Seq<char>>>,
) -> Seq<SampleView> {
    match p {
        Some(phases) => phase_samples(g, seq![host, sn, direction], phases),
        None => Seq::empty(),
    }
}

/// The samples of a power meter gauge: "production", then "consumption".
pub open spec fn meter_samples(
    g: Gauge,
    host: Seq<char>,
    sn: Seq<char>,
    d: (Option<Seq<Seq<char>>>, Option<Seq<Seq<char>>>),
) -> Seq<SampleView> {
    direction_samples(g, host, sn, "production"@, d.0) + direction_samples(
        g,
        host,
        sn,
        "consumption"@,
        d.1,
    )
}

/// The integer samples of a status: whether it is online (1 or 0), then
/// its counts.
pub open spec fn count_samples(host: Seq<char>, sn: Seq<char>, st: StatusView) -> Seq<SampleView> {
    seq![
        int_sample(Gauge::Online, host, sn, if st.online { 1 } else { 0 }),
        int_sample(Gauge::ConsumptionWatts, host, sn, st.consumption_watts),
        int_sample(Gauge::InverterAcFreq, host, sn, st.inverter_ac_frequency),
        int_sample(Gauge::FeedInWatts, host, sn, st.grid_feed_in_watts),
        int_sample(Gauge::DischargeWatts, host, sn, st.discharge_watts),
        int_sample(Gauge::ProductionWatts, host, sn, st.production_watts),
        int_sample(Gauge::StateOfCharge, host, sn, st.state_of_charge_percent),
        int_sample(Gauge::InverterVolts, host, sn, st.inverter_ac_volts),
        int_sample(Gauge::BatteryVolts, host, sn, st.battery_volts),
    ]
}

/// Every sample of a battery whose status was read: the counts, the
/// temperatures, the grid frequency, the grid voltage of each phase, the
/// meter currents and the meter voltages.
pub open spec fn status_samples_of(host: Seq<char>, sn: Seq<char>, st: StatusView) -> Seq<
    SampleView,
> {
    count_samples(host, sn, st) + temperature_samples(host, sn, st.temperatures) + seq![
        reading_sample(Gauge::GridFrequency, seq![host, sn], st.grid_frequency),
    ] + phase_samples(Gauge::GridVoltage, seq![host, sn], st.grid_voltage) + meter_samples(
        Gauge::MeterCurrent,
        host,
        sn,
        st.current,
    ) + meter_samples(Gauge::MeterVolts, host, sn, st.volts)
}

/// The one sample of a battery whose status could not be read: offline.
pub open spec fn failure_samples_of(host: Seq<char>, sn: Seq<char>) -> Seq<SampleView> {
    seq![int_sample(Gauge::Online, host, sn, 0)]
}

/// The build information sample: version, revision ("" when unknown) and
/// compiler version ("" when unknown), set to one.
pub open spec fn build_info_sample_of(
    version: Seq<char>,
    revision: Option<Seq<char>>,
    rust_version: Option<Seq<char>>,
) -> SampleView {
    reading_sample(
        Gauge::BuildInfo,
        seq![
            version,
            match revision {
                Some(r) => r,
                None => Seq::empty(),
            },
            match rust_version {
                Some(r) => r,
                None => Seq::empty(),
            },
        ],
        "1"@,
    )
}

proof fn lemma_push_view(s: Seq<Sample>, x: Sample)
    ensures
        samples_view(s.push(x)) == samples_view(s).push(x@),
{
    assert(samples_view(s.push(x)) =~= samples_view(s).push(x@));
}

proof fn lemma_append_view(a: Seq<Sample>, b: Seq<Sample>)
    ensures
        samples_view(a + b) == samples_view(a) + samples_view(b),
{
    assert(samples_view(a + b) =~= samples_view(a) + samples_view(b));
}

fn text_of(s: &str) -> (r: String)
    ensures
        r@ == s@,
{
    s.to_owned()
}

fn push_sample(out: &mut Vec<Sample>, x: Sample)
    ensures
        samples_view(final(out)@) == samples_view(old(out)@).push(x@),
{
    proof {
        lemma_push_view(out@, x);
    }
    out.push(x);
}

fn host_sn_labels(host: &String, sn: &String) -> (r: Vec<String>)
    ensures
        texts(r@) == seq![host@, sn@],
{
    let mut r = Vec::new();
    r.push(host.clone());
    r.push(sn.clone());
    assert(texts(r@) =~= seq![host@, sn@]);
    r
}

fn labels_with(labels: &Vec<String>, last: String) -> (r: Vec<String>)
    ensures
        texts(r@) == texts(labels@).push(last@),
{
    let mut r = labels.clone();
    proof {
        assert(r@ =~= labels@) by {
            assert forall|i: int| 0 <= i < labels@.len() implies r@[i] == labels@[i] by {
                assert(cloned::<String>(labels@[i], r@[i]));
            }
        }
    }
    r.push(last);
    assert(texts(r@) =~= texts(labels@).push(last@));
    r
}

fn push_int(out: &mut Vec<Sample>, g: Gauge, host: &String, sn: &String, v: i64)
    ensures
        samples_view(final(out)@) == samples_view(old(out)@).push(int_sample(g, host@, sn@, v)),
{
    let x = Sample { gauge: g, labels: host_sn_labels(host, sn), value: SampleValue::Int(v) };
    push_sample(out, x);
}

fn push_phases(out: &mut Vec<Sample>, g: Gauge, labels: &Vec<String>, p: &Phases)
    ensures
        samples_view(final(out)@) == samples_view(old(out)@) + phase_samples(
            g,
            texts(labels@),
            p@,
        ),
{
    let ghost start = samples_view(out@);
    let x1 = Sample {
        gauge: g,
        labels: labels_with(labels, text_of("1")),
        value: SampleValue::Reading(p.l1.clone()),
    };
    push_sample(out, x1);
    let x2 = Sample {
        gauge: g,
        labels: labels_with(labels, text_of("2")),
        value: SampleValue::Reading(p.l2.clone()),
    };
    push_sample(out, x2);
    let x3 = Sample {
        gauge: g,
        labels: labels_with(labels, text_of("3")),
        value: SampleValue::Reading(p.l3.clone()),
    };
    push_sample(out, x3);
    assert(samples_view(out@) =~= start + phase_samples(g, texts(labels@), p@));
}

fn push_probe(out: &mut Vec<Sample>, host: &String, sn: &String, probe: &str, t: &Option<String>)
    ensures
        samples_view(final(out)@) == samples_view(old(out)@) + probe_sample(
            host@,
            sn@,
            probe@,
            crate::sonnen_reader::text_view(*t),
        ),
{
    let ghost start = samples_view(out@);
    match t {
        Some(r) => {
            let labels = labels_with(&host_sn_labels(host, sn), text_of(probe));
            let x = Sample {
                gauge: Gauge::Temperature,
                labels,
                value: SampleValue::Reading(r.clone()),
            };
            push_sample(out, x);
            assert(texts(labels@) =~= seq![host@, sn@, probe@]);
        },
        None => {},
    }
    assert(samples_view(out@) =~= start + probe_sample(
        host@,
        sn@,
        probe@,
        crate::sonnen_reader::text_view(*t),
    ));
}

fn push_temperatures(out: &mut Vec<Sample>, host: &String, sn: &String, t: &Probes)
    ensures
        samples_view(final(out)@) == samples_view(old(out)@) + temperature_samples(
            host@,
            sn@,
            t@,
        ),
{
    let ghost start = samples_view(out@);
    push_probe(out, host, sn, "bdc", &t.bdc);
    push_probe(out, host, sn, "hmi", &t.hmi);
    push_probe(out, host, sn, "pu", &t.pu);
    assert(samples_view(out@) =~= start + temperature_samples(host@, sn@, t@));
}

fn push_direction(
    out: &mut Vec<Sample>,
    g: Gauge,
    host: &String,
    sn: &String,
    direction: &str,
    p: &Option<Phases>,
)
    ensures
        samples_view(final(out)@) == samples_view(old(out)@) + direction_samples(
            g,
            host@,
            sn@,
            direction@,
            crate::sonnen_reader::phases_view(*p),
        ),
{
    let ghost start = samples_view(out@);
    match p {
        Some(phases) => {
            let labels = labels_with(&host_sn_labels(host, sn), text_of(direction));
            assert(texts(labels@) =~= seq![host@, sn@, direction@]);
            push_phases(out, g, &labels, phases);
        },
        None => {},
    }
    assert(samples_view(out@) =~= start + direction_samples(
        g,
        host@,
        sn@,
        direction@,
        crate::sonnen_reader::phases_view(*p),
    ));
}

/// Every sample of a battery whose status was read.
pub fn status_samples(host: &String, sn: &String, status: &SonnenStatus) -> (r: Vec<Sample>)
    ensures
        samples_view(r@) == status_samples_of(host@, sn@, status@),
{
    let mut out: Vec<Sample> = Vec::new();
    push_int(&mut out, Gauge::Online, host, sn, if status.online { 1 } else { 0 });
    push_int(&mut out, Gauge::ConsumptionWatts, host, sn, status.consumption_watts);
    push_int(&mut out, Gauge::InverterAcFreq, host, sn, status.inverter_ac_frequency);
    push_int(&mut out, Gauge::FeedInWatts, host, sn, status.grid_feed_in_watts);
    push_int(&mut out, Gauge::DischargeWatts, host, sn, status.discharge_watts);
    push_int(&mut out, Gauge::ProductionWatts, host, sn, status.production_watts);
    push_int(&mut out, Gauge::StateOfCharge, host, sn, status.state_of_charge_percent);
    push_int(&mut out, Gauge::InverterVolts, host, sn, status.inverter_ac_volts);
    push_int(&mut out, Gauge::BatteryVolts, host, sn, status.battery_volts);
    assert(samples_view(out@) =~= count_samples(host@, sn@, status@));
    push_temperatures(&mut out, host, sn, &status.temperatures);
    let freq = Sample {
        gauge: Gauge::GridFrequency,
        labels: host_sn_labels(host, sn),
        value: SampleValue::Reading(status.grid_frequency.clone()),
    };
    push_sample(&mut out, freq);
    let hs = host_sn_labels(host, sn);
    push_phases(&mut out, Gauge::GridVoltage, &hs, &status.grid_voltage);
    push_direction(&mut out, Gauge::MeterCurrent, host, sn, "production", &status.current.production);
    push_direction(&mut out, Gauge::MeterCurrent, host, sn, "consumption", &status.current.consumption);
    push_direction(&mut out, Gauge::MeterVolts, host, sn, "production", &status.volts.production);
    push_direction(&mut out, Gauge::MeterVolts, host, sn, "consumption", &status.volts.consumption);
    assert(samples_view(out@) =~= status_samples_of(host@, sn@, status@));
    out
}

/// The one sample of a battery whose status could not be read: offline.
pub fn failure_samples(host: &String, sn: &String) -> (r: Vec<Sample>)
    ensures
        samples_view(r@) == failure_samples_of(host@, sn@),
{
    let mut out: Vec<Sample> = Vec::new();
    push_int(&mut out, Gauge::Online, host, sn, 0);
    assert(samples_view(out@) =~= failure_samples_of(host@, sn@));
    out
}

fn text_or_empty_of(t: Option<&str>) -> (r: String)
    ensures
        r@ == match t {
            Some(s) => s@,
            None => Seq::<char>::empty(),
        },
{
    match t {
        Some(s) => s.to_owned(),
        None => String::new(),
    }
}

/// The build information sample.
pub fn build_info_sample(version: &str, revision: Option<&str>, rust_version: Option<&str>) -> (r:
    Sample)
    ensures
        r@ == build_info_sample_of(
            version@,
            crate::config::str_view(revision),
            crate::config::str_view(rust_version),
        ),
{
    let mut labels: Vec<String> = Vec::new();
    labels.push(text_of(version));
    labels.push(text_or_empty_of(revision));
    labels.push(text_or_empty_of(rust_version));
    let r = Sample { gauge: Gauge::BuildInfo, labels, value: SampleValue::Reading(text_of("1")) };
    assert(r@.labels =~= build_info_sample_of(
        version@,
        crate::config::str_view(revision),
        crate::config::str_view(rust_version),
    ).labels);
    r
}

/// What was read of one battery: the labels it is exported under, and its
/// status, or nothing when reading it failed.
#[derive(Debug)]
pub struct Scrape {
    pub host: String,
    pub sn: String,
    pub status: Option<SonnenStatus>,
}

/// The mathematical value of a [`Scrape`].
pub struct ScrapeView {
    pub host: Seq<char>,
    pub sn: Seq<char>,
    pub status: Option<StatusView>,
}

impl View for Scrape {
    type V = ScrapeView;

    open spec fn view(&self) -> ScrapeView {
        ScrapeView {
            host: self.host@,
            sn: self.sn@,
            status: match self.status {
                Some(s) => Some(s@),
                None => None,
            },
        }
    }
}

/// The samples of one battery.
pub open spec fn scrape_samples_of(s: ScrapeView) -> Seq<SampleView> {
    match s.status {
        Some(st) => status_samples_of(s.host, s.sn, st),
        None => failure_samples_of(s.host, s.sn),
    }
}

/// The samples of each battery in turn.
pub open spec fn all_scrape_samples(s: Seq<ScrapeView>) -> Seq<SampleView>
    decreases s.len(),
{
    if s.len() == 0 {
        Seq::empty()
    } else {
        all_scrape_samples(s.drop_last()) + scrape_samples_of(s.last())
    }
}

/// The samples the exporter exports: those of each battery, then the build
/// information.
pub open spec fn metrics_of(
    scrapes: Seq<ScrapeView>,
    version: Seq<char>,
    revision: Option<Seq<char>>,
    rust_version: Option<Seq<char>>,
) -> Seq<SampleView> {
    all_scrape_samples(scrapes).push(build_info_sample_of(version, revision, rust_version))
}

/// The views of a sequence of scrapes.
pub open spec fn scrapes_view(s: Seq<Scrape>) -> Seq<ScrapeView> {
    s.map_values(|x: Scrape| x@)
}

/// The samples of one battery.
pub fn scrape_samples(s: &Scrape) -> (r: Vec<Sample>)
    ensures
        samples_view(r@) == scrape_samples_of(s@),
{
    match &s.status {
        Some(st) => status_samples(&s.host, &s.sn, st),
        None => failure_samples(&s.host, &s.sn),
    }
}

/// The samples the exporter exports for the batteries it read: those of
/// each battery in turn, then the build information.
pub fn metrics(
    scrapes: &Vec<Scrape>,
    version: &str,
    revision: Option<&str>,
    rust_version: Option<&str>,
) -> (r: Vec<Sample>)
    ensures
        samples_view(r@) == metrics_of(
            scrapes_view(scrapes@),
            version@,
            crate::config::str_view(revision),
            crate::config::str_view(rust_version),
        ),
{
    let mut out: Vec<Sample> = Vec::new();
    let n = scrapes.len();
    let mut i: usize = 0;
    while i < n
        invariant
            n == scrapes@.len(),
            i <= n,
            samples_view(out@) == all_scrape_samples(scrapes_view(scrapes@).take(i as int)),
        decreases n - i,
    {
        let mut more = scrape_samples(&scrapes[i]);
        proof {
            lemma_append_view(out@, more@);
            let sv = scrapes_view(scrapes@);
            assert(sv.take(i + 1).drop_last() =~= sv.take(i as int));
            assert(sv.take(i + 1).last() == scrapes@[i as int]@);
        }
        out.append(&mut more);
        i = i + 1;
    }
    assert(scrapes_view(scrapes@).take(n as int) =~= scrapes_view(scrapes@));
    push_sample(&mut out, build_info_sample(version, revision, rust_version));
    out
}

} // verus!
