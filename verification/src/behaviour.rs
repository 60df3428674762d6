//! What the exporter's operations do, stated over their inputs: what the
//! reader makes of the battery's documents, which value each exported
//! sample carries, how the samples of several batteries combine, which
//! documents are taken, and what each gauge is called.
use vstd::prelude::*;

use crate::handlers::{
    all_scrape_samples, count_samples, int_sample, direction_samples, meter_samples, metrics_of,
    phase_samples, probe_sample, reading_sample, scrape_samples_of, status_samples_of,
    temperature_samples, Gauge, SampleView, ScrapeView, ValueView,
};
use crate::json::{member, Json};
use crate::sonnen_reader::{
    after_inverter, after_main_status, after_power_meter, fresh_reader, inverter_doc_ready,
    meter_doc_ready, read_status,
    status_doc_ready, StatusView,
};
use crate::text::{float_text, trim_quotes};

verus! {

// ---------------------------------------------------------------------------
// What the reader makes of the documents
// ---------------------------------------------------------------------------

/// The reading of the member `key` of `e`: the member's JSON text with the
/// enclosing quotes trimmed.
pub open spec fn reading_in(e: Seq<(String, Json)>, key: Seq<char>) -> Seq<char> {
    trim_quotes(member(e, key).unwrap().text@)
}

/// The members of the object `key` of the document.
pub open spec fn object_members(doc: Json, key: Seq<char>) -> Seq<(String, Json)> {
    doc.spec_object_field(key).unwrap()
}

/// Taking the main status document sets the battery online and copies each
/// of its eight counts into its own field, leaving every reading as it was.
pub proof fn lemma_main_status_copies_counts(st: StatusView, doc: Json)
    requires
        status_doc_ready(doc),
    ensures
        ({
            let r = after_main_status(st, doc);
            &&& r.online
            &&& Some(r.consumption_watts) == doc.spec_int_field("Consumption_W"@)
            &&& Some(r.inverter_ac_frequency) == doc.spec_int_field("Fac"@)
            &&& Some(r.grid_feed_in_watts) == doc.spec_int_field("GridFeedIn_W"@)
            &&& Some(r.discharge_watts) == doc.spec_int_field("Pac_total_W"@)
            &&& Some(r.production_watts) == doc.spec_int_field("Production_W"@)
            &&& Some(r.state_of_charge_percent) == doc.spec_int_field("RSOC"@)
            &&& Some(r.inverter_ac_volts) == doc.spec_int_field("Uac"@)
            &&& Some(r.battery_volts) == doc.spec_int_field("Ubat"@)
            &&& r.temperatures == st.temperatures
            &&& r.grid_frequency == st.grid_frequency
            &&& r.grid_voltage == st.grid_voltage
            &&& r.current == st.current
            &&& r.volts == st.volts
        }),
{
}

/// Taking the power meter document sets the currents and the voltages of
/// the production direction from the object "4_1" and those of the
/// consumption direction from the object "5_1", each phase from its own
/// member, and changes nothing else.
pub proof fn lemma_power_meter_copies_meters(st: StatusView, doc: Json)
    requires
        meter_doc_ready(doc),
    ensures
        ({
            let r = after_power_meter(st, doc);
            let p = object_members(doc, "4_1"@);
            let c = object_members(doc, "5_1"@);
            &&& r.current == (
                Some(seq![reading_in(p, "a_l1"@), reading_in(p, "a_l2"@), reading_in(p, "a_l3"@)]),
                Some(seq![reading_in(c, "a_l1"@), reading_in(c, "a_l2"@), reading_in(c, "a_l3"@)]),
            )
            &&& r.volts == (
                Some(
                    seq![
                        reading_in(p, "v_l1_n"@),
                        reading_in(p, "v_l2_n"@),
                        reading_in(p, "v_l3_n"@),
                    ],
                ),
                Some(
                    seq![
                        reading_in(c, "v_l1_n"@),
                        reading_in(c, "v_l2_n"@),
                        reading_in(c, "v_l3_n"@),
                    ],
                ),
            )
            &&& r == StatusView { current: r.current, volts: r.volts, ..st }
        }),
{
    let r = after_power_meter(st, doc);
    assert(r =~= StatusView { current: r.current, volts: r.volts, ..st });
}

/// The status read from a battery's two documents is online, holds the
/// eight counts of the status document, the production meter readings of
/// the object "4_1" and the consumption meter readings of the object "5_1"
/// of the power meter document, no temperature, and zero for the grid
/// frequency and each grid voltage.
pub proof fn lemma_read_status_holds_documents(url: Seq<char>, main_doc: Json, meter_doc: Json)
    requires
        status_doc_ready(main_doc),
        meter_doc_ready(meter_doc),
    ensures
        ({
            let st = read_status(url, main_doc, meter_doc);
            let p = object_members(meter_doc, "4_1"@);
            let c = object_members(meter_doc, "5_1"@);
            &&& st.online
            &&& Some(st.consumption_watts) == main_doc.spec_int_field("Consumption_W"@)
            &&& Some(st.inverter_ac_frequency) == main_doc.spec_int_field("Fac"@)
            &&& Some(st.grid_feed_in_watts) == main_doc.spec_int_field("GridFeedIn_W"@)
            &&& Some(st.discharge_watts) == main_doc.spec_int_field("Pac_total_W"@)
            &&& Some(st.production_watts) == main_doc.spec_int_field("Production_W"@)
            &&& Some(st.state_of_charge_percent) == main_doc.spec_int_field("RSOC"@)
            &&& Some(st.inverter_ac_volts) == main_doc.spec_int_field("Uac"@)
            &&& Some(st.battery_volts) == main_doc.spec_int_field("Ubat"@)
            &&& st.current == (
                Some(seq![reading_in(p, "a_l1"@), reading_in(p, "a_l2"@), reading_in(p, "a_l3"@)]),
                Some(seq![reading_in(c, "a_l1"@), reading_in(c, "a_l2"@), reading_in(c, "a_l3"@)]),
            )
            &&& st.volts == (
                Some(
                    seq![
                        reading_in(p, "v_l1_n"@),
                        reading_in(p, "v_l2_n"@),
                        reading_in(p, "v_l3_n"@),
                    ],
                ),
                Some(
                    seq![
                        reading_in(c, "v_l1_n"@),
                        reading_in(c, "v_l2_n"@),
                        reading_in(c, "v_l3_n"@),
                    ],
                ),
            )
            &&& st.temperatures == (None::<Seq<char>>, None::<Seq<char>>, None::<Seq<char>>)
            &&& st.grid_frequency == seq!['0']
            &&& st.grid_voltage == seq![seq!['0'], seq!['0'], seq!['0']]
        }),
{
    let s0 = fresh_reader(url).status;
    lemma_main_status_copies_counts(s0, main_doc);
    lemma_power_meter_copies_meters(after_main_status(s0, main_doc), meter_doc);
}

/// Taking the inverter document sets the three probe temperatures from the
/// members "tempbdc", "temphmi" and "temppu" of its "status" object, the
/// grid frequency from "fac" and the grid voltage of each phase from
/// "uac1", "uac2" and "uac3", and changes nothing else.
pub proof fn lemma_inverter_copies_readings(st: StatusView, doc: Json)
    requires
        inverter_doc_ready(doc),
    ensures
        ({
            let r = after_inverter(st, doc);
            let s = object_members(doc, "status"@);
            &&& r.temperatures == (
                Some(reading_in(s, "tempbdc"@)),
                Some(reading_in(s, "temphmi"@)),
                Some(reading_in(s, "temppu"@)),
            )
            &&& r.grid_frequency == reading_in(s, "fac"@)
            &&& r.grid_voltage == seq![
                reading_in(s, "uac1"@),
                reading_in(s, "uac2"@),
                reading_in(s, "uac3"@),
            ]
            &&& r == StatusView {
                temperatures: r.temperatures,
                grid_frequency: r.grid_frequency,
                grid_voltage: r.grid_voltage,
                ..st
            }
        }),
{
    let r = after_inverter(st, doc);
    assert(r =~= StatusView {
        temperatures: r.temperatures,
        grid_frequency: r.grid_frequency,
        grid_voltage: r.grid_voltage,
        ..st
    });
}

/// An inverter document is taken exactly when its member "status" is an
/// object whose seven readings are each there and read as `f64`.
pub proof fn lemma_inverter_doc_taken(doc: Json)
    ensures
        inverter_doc_ready(doc) <==> (doc.spec_object_field("status"@) matches Some(s) && {
            &&& member(s, "tempbdc"@) is Some && float_text(reading_in(s, "tempbdc"@))
            &&& member(s, "temphmi"@) is Some && float_text(reading_in(s, "temphmi"@))
            &&& member(s, "temppu"@) is Some && float_text(reading_in(s, "temppu"@))
            &&& member(s, "fac"@) is Some && float_text(reading_in(s, "fac"@))
            &&& member(s, "uac1"@) is Some && float_text(reading_in(s, "uac1"@))
            &&& member(s, "uac2"@) is Some && float_text(reading_in(s, "uac2"@))
            &&& member(s, "uac3"@) is Some && float_text(reading_in(s, "uac3"@))
        }),
{
}

// ---------------------------------------------------------------------------
// Which value each exported sample carries
// ---------------------------------------------------------------------------

/// `v` is the reading of the phase that `label` names ("1", "2" or "3").
pub open spec fn phase_reading(label: Seq<char>, phases: Seq<Seq<char>>, v: ValueView) -> bool {
    ||| label == "1"@ && v == ValueView::Reading(phases[0])
    ||| label == "2"@ && v == ValueView::Reading(phases[1])
    ||| label == "3"@ && v == ValueView::Reading(phases[2])
}

/// `v` is the reading of the direction `d` ("production" or "consumption")
/// and the phase `label` of a meter.
pub open spec fn meter_reading(
    d: Seq<char>,
    label: Seq<char>,
    dirs: (Option<Seq<Seq<char>>>, Option<Seq<Seq<char>>>),
    v: ValueView,
) -> bool {
    ||| d == "production"@ && (dirs.0 matches Some(ps) && phase_reading(label, ps, v))
    ||| d == "consumption"@ && (dirs.1 matches Some(ps) && phase_reading(label, ps, v))
}

/// `v` is the temperature of the probe `probe` ("bdc", "hmi" or "pu").
pub open spec fn probe_reading(
    probe: Seq<char>,
    t: (Option<Seq<char>>, Option<Seq<char>>, Option<Seq<char>>),
    v: ValueView,
) -> bool {
    ||| probe == "bdc"@ && (t.0 matches Some(r) && v == ValueView::Reading(r))
    ||| probe == "hmi"@ && (t.1 matches Some(r) && v == ValueView::Reading(r))
    ||| probe == "pu"@ && (t.2 matches Some(r) && v == ValueView::Reading(r))
}

/// A sample of the battery `host`, `sn` with status `st` carries the field
/// of the status that its gauge exports, for the probe, direction and phase
/// its labels name.
pub open spec fn carries_field(x: SampleView, host: Seq<char>, sn: Seq<char>, st: StatusView) -> bool {
    let two = seq![host, sn];
    match x.gauge {
        Gauge::Online => x.labels == two && x.value == ValueView::Int(
            if st.online {
                1
            } else {
                0
            },
        ),
        Gauge::ConsumptionWatts => x.labels == two && x.value == ValueView::Int(
            st.consumption_watts,
        ),
        Gauge::InverterAcFreq => x.labels == two && x.value == ValueView::Int(
            st.inverter_ac_frequency,
        ),
        Gauge::FeedInWatts => x.labels == two && x.value == ValueView::Int(st.grid_feed_in_watts),
        Gauge::DischargeWatts => x.labels == two && x.value == ValueView::Int(st.discharge_watts),
        Gauge::ProductionWatts => x.labels == two && x.value == ValueView::Int(st.production_watts),
        Gauge::StateOfCharge => x.labels == two && x.value == ValueView::Int(
            st.state_of_charge_percent,
        ),
        Gauge::InverterVolts => x.labels == two && x.value == ValueView::Int(st.inverter_ac_volts),
        Gauge::BatteryVolts => x.labels == two && x.value == ValueView::Int(st.battery_volts),
        Gauge::Temperature => x.labels.len() == 3 && x.labels.subrange(0, 2) == two
            && probe_reading(x.labels[2], st.temperatures, x.value),
        Gauge::GridFrequency => x.labels == two && x.value == ValueView::Reading(st.grid_frequency),
        Gauge::GridVoltage => x.labels.len() == 3 && x.labels.subrange(0, 2) == two
            && phase_reading(x.labels[2], st.grid_voltage, x.value),
        Gauge::MeterCurrent => x.labels.len() == 4 && x.labels.subrange(0, 2) == two
            && meter_reading(x.labels[2], x.labels[3], st.current, x.value),
        Gauge::MeterVolts => x.labels.len() == 4 && x.labels.subrange(0, 2) == two
            && meter_reading(x.labels[2], x.labels[3], st.volts, x.value),
        Gauge::BuildInfo => false,
    }
}

/// Every sample of `xs` carries its gauge's field of `st`.
pub open spec fn all_carry(xs: Seq<SampleView>, host: Seq<char>, sn: Seq<char>, st: StatusView) -> bool {
    forall|i: int| 0 <= i < xs.len() ==> carries_field(#[trigger] xs[i], host, sn, st)
}

proof fn lemma_carry_concat(
    xs: Seq<SampleView>,
    ys: Seq<SampleView>,
    host: Seq<char>,
    sn: Seq<char>,
    st: StatusView,
)
    requires
        all_carry(xs, host, sn, st),
        all_carry(ys, host, sn, st),
    ensures
        all_carry(xs + ys, host, sn, st),
{
    assert forall|i: int| 0 <= i < (xs + ys).len() implies carries_field(
        #[trigger] (xs + ys)[i],
        host,
        sn,
        st,
    ) by {
        if i >= xs.len() {
            assert((xs + ys)[i] == ys[i - xs.len()]);
        }
    }
}

proof fn lemma_phases_carry(
    g: Gauge,
    labels: Seq<Seq<char>>,
    ps: Seq<Seq<char>>,
    host: Seq<char>,
    sn: Seq<char>,
    st: StatusView,
)
    requires
        ps.len() == 3,
        (g == Gauge::GridVoltage && labels == seq![host, sn] && ps == st.grid_voltage) || ((g
            == Gauge::MeterCurrent || g == Gauge::MeterVolts) && labels.len() == 3 && labels.subrange(
            0,
            2,
        ) == seq![host, sn] && meter_direction_has(
            labels[2],
            ps,
            if g == Gauge::MeterCurrent {
                st.current
            } else {
                st.volts
            },
        )),
    ensures
        all_carry(phase_samples(g, labels, ps), host, sn, st),
{
    let xs = phase_samples(g, labels, ps);
    assert forall|i: int| 0 <= i < xs.len() implies carries_field(#[trigger] xs[i], host, sn, st) by {
        let l = xs[i].labels;
        assert(l.subrange(0, 2) =~= labels.subrange(0, 2));
        if g == Gauge::GridVoltage {
            assert(labels.subrange(0, 2) =~= labels);
        }
    }
}

/// The direction `d` of `dirs` holds the readings `ps`.
pub open spec fn meter_direction_has(
    d: Seq<char>,
    ps: Seq<Seq<char>>,
    dirs: (Option<Seq<Seq<char>>>, Option<Seq<Seq<char>>>),
) -> bool {
    ||| d == "production"@ && dirs.0 == Some(ps)
    ||| d == "consumption"@ && dirs.1 == Some(ps)
}

proof fn lemma_meter_carry(g: Gauge, host: Seq<char>, sn: Seq<char>, st: StatusView)
    requires
        g == Gauge::MeterCurrent || g == Gauge::MeterVolts,
        st.current.0 matches Some(ps) ==> ps.len() == 3,
        st.current.1 matches Some(ps) ==> ps.len() == 3,
        st.volts.0 matches Some(ps) ==> ps.len() == 3,
        st.volts.1 matches Some(ps) ==> ps.len() == 3,
    ensures
        all_carry(
            meter_samples(
                g,
                host,
                sn,
                if g == Gauge::MeterCurrent {
                    st.current
                } else {
                    st.volts
                },
            ),
            host,
            sn,
            st,
        ),
{
    let dirs = if g == Gauge::MeterCurrent {
        st.current
    } else {
        st.volts
    };
    let x = direction_samples(g, host, sn, "production"@, dirs.0);
    let y = direction_samples(g, host, sn, "consumption"@, dirs.1);
    match dirs.0 {
        Some(ps) => {
            let l = seq![host, sn, "production"@];
            assert(l.subrange(0, 2) =~= seq![host, sn]);
            lemma_phases_carry(g, l, ps, host, sn, st);
        },
        None => {},
    }
    match dirs.1 {
        Some(ps) => {
            let l = seq![host, sn, "consumption"@];
            assert(l.subrange(0, 2) =~= seq![host, sn]);
            lemma_phases_carry(g, l, ps, host, sn, st);
        },
        None => {},
    }
    lemma_carry_concat(x, y, host, sn, st);
}

/// Every reading of the status is one per phase where it is per phase.
pub open spec fn three_phases(st: StatusView) -> bool {
    &&& st.grid_voltage.len() == 3
    &&& st.current.0 matches Some(ps) ==> ps.len() == 3
    &&& st.current.1 matches Some(ps) ==> ps.len() == 3
    &&& st.volts.0 matches Some(ps) ==> ps.len() == 3
    &&& st.volts.1 matches Some(ps) ==> ps.len() == 3
}

/// Each sample a read battery is exported with carries the field of its
/// status that its gauge stands for (the online flag as 1 or 0, each count
/// in its own gauge, each temperature, grid voltage and meter reading
/// under its own probe, direction and phase), and every count gauge, the
/// online gauge and the grid frequency gauge are exported.
pub proof fn lemma_status_samples_carry_fields(host: Seq<char>, sn: Seq<char>, st: StatusView)
    requires
        three_phases(st),
    ensures
        all_carry(status_samples_of(host, sn, st), host, sn, st),
        ({
            let all = status_samples_of(host, sn, st);
            let two = seq![host, sn];
            &&& all.contains(int_sample(Gauge::Online, host, sn, if st.online { 1 } else { 0 }))
            &&& all.contains(int_sample(Gauge::ConsumptionWatts, host, sn, st.consumption_watts))
            &&& all.contains(int_sample(Gauge::InverterAcFreq, host, sn, st.inverter_ac_frequency))
            &&& all.contains(int_sample(Gauge::FeedInWatts, host, sn, st.grid_feed_in_watts))
            &&& all.contains(int_sample(Gauge::DischargeWatts, host, sn, st.discharge_watts))
            &&& all.contains(int_sample(Gauge::ProductionWatts, host, sn, st.production_watts))
            &&& all.contains(
                int_sample(Gauge::StateOfCharge, host, sn, st.state_of_charge_percent),
            )
            &&& all.contains(int_sample(Gauge::InverterVolts, host, sn, st.inverter_ac_volts))
            &&& all.contains(int_sample(Gauge::BatteryVolts, host, sn, st.battery_volts))
            &&& all.contains(reading_sample(Gauge::GridFrequency, two, st.grid_frequency))
        }),
{
    let a = count_samples(host, sn, st);
    let b = temperature_samples(host, sn, st.temperatures);
    let c = seq![reading_sample(Gauge::GridFrequency, seq![host, sn], st.grid_frequency)];
    let d = phase_samples(Gauge::GridVoltage, seq![host, sn], st.grid_voltage);
    let e = meter_samples(Gauge::MeterCurrent, host, sn, st.current);
    let f = meter_samples(Gauge::MeterVolts, host, sn, st.volts);
    assert(all_carry(a, host, sn, st));
    let p0 = probe_sample(host, sn, "bdc"@, st.temperatures.0);
    let p1 = probe_sample(host, sn, "hmi"@, st.temperatures.1);
    let p2 = probe_sample(host, sn, "pu"@, st.temperatures.2);
    assert forall|i: int| 0 <= i < p0.len() implies carries_field(#[trigger] p0[i], host, sn, st) by {
        assert(p0[i].labels.subrange(0, 2) =~= seq![host, sn]);
    }
    assert forall|i: int| 0 <= i < p1.len() implies carries_field(#[trigger] p1[i], host, sn, st) by {
        assert(p1[i].labels.subrange(0, 2) =~= seq![host, sn]);
    }
    assert forall|i: int| 0 <= i < p2.len() implies carries_field(#[trigger] p2[i], host, sn, st) by {
        assert(p2[i].labels.subrange(0, 2) =~= seq![host, sn]);
    }
    lemma_carry_concat(p0, p1, host, sn, st);
    lemma_carry_concat(p0 + p1, p2, host, sn, st);
    assert(all_carry(c, host, sn, st));
    lemma_phases_carry(Gauge::GridVoltage, seq![host, sn], st.grid_voltage, host, sn, st);
    lemma_meter_carry(Gauge::MeterCurrent, host, sn, st);
    lemma_meter_carry(Gauge::MeterVolts, host, sn, st);
    lemma_carry_concat(a, b, host, sn, st);
    lemma_carry_concat(a + b, c, host, sn, st);
    lemma_carry_concat(a + b + c, d, host, sn, st);
    lemma_carry_concat(a + b + c + d, e, host, sn, st);
    lemma_carry_concat(a + b + c + d + e, f, host, sn, st);
    let all = status_samples_of(host, sn, st);
    assert(all == a + b + c + d + e + f);
    let n: int = (a.len() + b.len()) as int;
    assert(all[0] == a[0]);
    assert(all[1] == a[1]);
    assert(all[2] == a[2]);
    assert(all[3] == a[3]);
    assert(all[4] == a[4]);
    assert(all[5] == a[5]);
    assert(all[6] == a[6]);
    assert(all[7] == a[7]);
    assert(all[8] == a[8]);
    assert(all[n] == c[0]);
}

/// Every status the reader hands out has one reading per phase.
pub proof fn lemma_read_status_three_phases(url: Seq<char>, main_doc: Json, meter_doc: Json)
    requires
        status_doc_ready(main_doc),
        meter_doc_ready(meter_doc),
    ensures
        three_phases(read_status(url, main_doc, meter_doc)),
{
    lemma_read_status_holds_documents(url, main_doc, meter_doc);
}

// ---------------------------------------------------------------------------
// How the samples of several batteries combine
// ---------------------------------------------------------------------------

/// The samples of the batteries `xs` followed by the batteries `ys` are the
/// samples of `xs` followed by those of `ys`: a battery's samples do not
/// depend on the batteries before or after it, whether or not those could
/// be read.
pub proof fn lemma_scrapes_concat(xs: Seq<ScrapeView>, ys: Seq<ScrapeView>)
    ensures
        all_scrape_samples(xs + ys) == all_scrape_samples(xs) + all_scrape_samples(ys),
    decreases ys.len(),
{
    if ys.len() == 0 {
        assert(xs + ys =~= xs);
        assert(all_scrape_samples(xs) + all_scrape_samples(ys) =~= all_scrape_samples(xs));
    } else {
        let ys1 = ys.drop_last();
        lemma_scrapes_concat(xs, ys1);
        assert((xs + ys).drop_last() =~= xs + ys1);
        assert((xs + ys).last() == ys.last());
        assert(all_scrape_samples(xs) + all_scrape_samples(ys1) + scrape_samples_of(ys.last())
            =~= all_scrape_samples(xs) + (all_scrape_samples(ys1) + scrape_samples_of(ys.last())));
    }
}

/// The samples of one battery are the samples of that battery alone.
pub proof fn lemma_one_scrape(s: ScrapeView)
    ensures
        all_scrape_samples(seq![s]) == scrape_samples_of(s),
{
    let one = seq![s];
    assert(one.drop_last() =~= Seq::<ScrapeView>::empty());
    assert(one.last() == s);
    assert(all_scrape_samples(Seq::<ScrapeView>::empty()) == Seq::<SampleView>::empty());
    assert(all_scrape_samples(one) == all_scrape_samples(one.drop_last()) + scrape_samples_of(s));
    assert(Seq::<SampleView>::empty() + scrape_samples_of(s) =~= scrape_samples_of(s));
}

/// The metrics hold, for every battery `k`, exactly that battery's samples,
/// right after the samples of the batteries before it; the build
/// information comes last.
pub proof fn lemma_metrics_hold_every_battery(
    scrapes: Seq<ScrapeView>,
    k: int,
    version: Seq<char>,
    revision: Option<Seq<char>>,
    rust_version: Option<Seq<char>>,
)
    requires
        0 <= k < scrapes.len(),
    ensures
        ({
            let m = metrics_of(scrapes, version, revision, rust_version);
            let start = all_scrape_samples(scrapes.take(k)).len() as int;
            let own = scrape_samples_of(scrapes[k]);
            &&& start + own.len() < m.len()
            &&& m.subrange(start, start + own.len()) == own
            &&& m.last().gauge == Gauge::BuildInfo
        }),
{
    let before = scrapes.take(k);
    let after = scrapes.skip(k + 1);
    assert(scrapes =~= before + seq![scrapes[k]] + after);
    lemma_scrapes_concat(before + seq![scrapes[k]], after);
    lemma_scrapes_concat(before, seq![scrapes[k]]);
    lemma_one_scrape(scrapes[k]);
    let m = metrics_of(scrapes, version, revision, rust_version);
    let a = all_scrape_samples(before);
    let own = scrape_samples_of(scrapes[k]);
    let z = all_scrape_samples(after);
    assert(all_scrape_samples(scrapes) == a + own + z);
    assert(m.subrange(a.len() as int, (a.len() + own.len()) as int) =~= own);
}

/// A battery that could not be read is exported as exactly one sample:
/// offline (0) under its host and serial number.
pub proof fn lemma_unread_battery_offline(host: Seq<char>, sn: Seq<char>)
    ensures
        scrape_samples_of(ScrapeView { host, sn, status: None }) == seq![
            SampleView { gauge: Gauge::Online, labels: seq![host, sn], value: ValueView::Int(0) },
        ],
{
}

// ---------------------------------------------------------------------------
// Which documents are taken
// ---------------------------------------------------------------------------

/// A status document is taken exactly when each of its eight counts is an
/// integer that fits in an `i64`, whatever the values.
pub proof fn lemma_status_doc_taken(url: Seq<char>, doc: Json)
    ensures
        fresh_reader(url).accepts(doc) == status_doc_ready(doc),
        status_doc_ready(doc) <==> (doc.spec_int_field("Consumption_W"@) is Some
            && doc.spec_int_field("Fac"@) is Some && doc.spec_int_field("GridFeedIn_W"@) is Some
            && doc.spec_int_field("Pac_total_W"@) is Some && doc.spec_int_field("Production_W"@) is Some
            && doc.spec_int_field("RSOC"@) is Some && doc.spec_int_field("Uac"@) is Some
            && doc.spec_int_field("Ubat"@) is Some),
{
}

/// A meter object is complete when each of its six members is there and
/// reads as an `f64`.
pub open spec fn meter_members_numeric(e: Seq<(String, Json)>) -> bool {
    &&& member(e, "a_l1"@) is Some && float_text(reading_in(e, "a_l1"@))
    &&& member(e, "a_l2"@) is Some && float_text(reading_in(e, "a_l2"@))
    &&& member(e, "a_l3"@) is Some && float_text(reading_in(e, "a_l3"@))
    &&& member(e, "v_l1_n"@) is Some && float_text(reading_in(e, "v_l1_n"@))
    &&& member(e, "v_l2_n"@) is Some && float_text(reading_in(e, "v_l2_n"@))
    &&& member(e, "v_l3_n"@) is Some && float_text(reading_in(e, "v_l3_n"@))
}

/// A power meter document is taken exactly when its members "4_1" and
/// "5_1" are objects whose six readings are each there and read as `f64`.
pub proof fn lemma_meter_doc_taken(doc: Json)
    ensures
        meter_doc_ready(doc) <==> ({
            &&& doc.spec_object_field("4_1"@) matches Some(p) && meter_members_numeric(p)
            &&& doc.spec_object_field("5_1"@) matches Some(c) && meter_members_numeric(c)
        }),
{
}

// ---------------------------------------------------------------------------
// What each gauge is called
// ---------------------------------------------------------------------------

/// Each gauge is exported under its own metric name, holds integers or
/// decimals, and has its own labels.
pub proof fn lemma_gauge_table()
    ensures
        Gauge::BuildInfo.spec_name() == "sonnen_build_info"@,
        Gauge::Online.spec_name() == "sonnen_online"@,
        Gauge::ConsumptionWatts.spec_name() == "sonnen_consumption_watts"@,
        Gauge::InverterAcFreq.spec_name() == "sonnen_frequency_inverter"@,
        Gauge::FeedInWatts.spec_name() == "sonnen_grid_feed_in_watts"@,
        Gauge::DischargeWatts.spec_name() == "sonnen_discharge_watts"@,
        Gauge::ProductionWatts.spec_name() == "sonnen_production_watts"@,
        Gauge::StateOfCharge.spec_name() == "sonnen_state_of_charge_percent"@,
        Gauge::InverterVolts.spec_name() == "sonnen_inverter_ac_volts"@,
        Gauge::BatteryVolts.spec_name() == "sonnen_battery_volts"@,
        Gauge::Temperature.spec_name() == "sonnen_temperature"@,
        Gauge::GridFrequency.spec_name() == "sonnen_frequency_grid"@,
        Gauge::GridVoltage.spec_name() == "sonnen_grid_volts"@,
        Gauge::MeterCurrent.spec_name() == "sonnen_meter_current"@,
        Gauge::MeterVolts.spec_name() == "sonnen_meter_volts"@,
        forall|g: Gauge|
            #![trigger g.spec_is_int()]
            g.spec_is_int() <==> (g != Gauge::BuildInfo && g != Gauge::Temperature && g
                != Gauge::GridFrequency && g != Gauge::GridVoltage && g != Gauge::MeterCurrent && g
                != Gauge::MeterVolts),
        Gauge::BuildInfo.spec_label_names() == seq!["version"@, "revision"@, "rustversion"@],
        Gauge::Temperature.spec_label_names() == seq!["host"@, "sn"@, "probe"@],
        Gauge::GridVoltage.spec_label_names() == seq!["host"@, "sn"@, "phase"@],
        Gauge::MeterCurrent.spec_label_names() == seq!["host"@, "sn"@, "direction"@, "phase"@],
        Gauge::MeterVolts.spec_label_names() == seq!["host"@, "sn"@, "direction"@, "phase"@],
        forall|g: Gauge|
            #![trigger g.spec_label_names()]
            g.spec_is_int() || g == Gauge::GridFrequency ==> g.spec_label_names() == seq![
                "host"@,
                "sn"@,
            ],
{
}

} // verus!
