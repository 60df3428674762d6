//! Properties of the exporter that span its functions.
use vstd::prelude::*;

use crate::handlers::{
    all_scrape_samples, count_samples, direction_samples, fits_gauge, int_sample, meter_samples,
    metrics_of, phase_samples, probe_sample, reading_sample, scrape_samples_of, status_samples_of,
    phase_label, temperature_samples, Gauge, SampleView, ScrapeView, ValueView,
};
use crate::json::Json;
use crate::sonnen_reader::{
    after_main_status, after_power_meter, fresh_reader, initial_status, meter_currents,
    meter_doc_ready, meter_ready, meter_volts, power_meter_path, read_from_battery, read_status,
    status_doc_ready, status_path, zero_reading, StatusView,
};
use crate::text::{decimal_mantissa, float_text, is_digit, without_sign};

verus! {

/// A sample of the battery exported as `host` and `sn` fits its gauge and
/// carries those two labels first.
pub open spec fn battery_sample_ok(s: SampleView, host: Seq<char>, sn: Seq<char>) -> bool {
    &&& fits_gauge(s)
    &&& s.gauge != Gauge::BuildInfo
    &&& s.labels.len() >= 2
    &&& s.labels[0] == host
    &&& s.labels[1] == sn
}

/// Every sample of `xs` is a fitting sample of the battery.
pub open spec fn battery_samples_ok(xs: Seq<SampleView>, host: Seq<char>, sn: Seq<char>) -> bool {
    forall|i: int| 0 <= i < xs.len() ==> battery_sample_ok(#[trigger] xs[i], host, sn)
}

proof fn lemma_ok_concat(xs: Seq<SampleView>, ys: Seq<SampleView>, host: Seq<char>, sn: Seq<char>)
    requires
        battery_samples_ok(xs, host, sn),
        battery_samples_ok(ys, host, sn),
    ensures
        battery_samples_ok(xs + ys, host, sn),
{
    assert forall|i: int| 0 <= i < (xs + ys).len() implies battery_sample_ok(
        #[trigger] (xs + ys)[i],
        host,
        sn,
    ) by {
        if i >= xs.len() {
            assert((xs + ys)[i] == ys[i - xs.len()]);
        }
    }
}

proof fn lemma_phases_ok(g: Gauge, host: Seq<char>, sn: Seq<char>, extra: Seq<Seq<char>>, p: Seq<Seq<char>>)
    requires
        g == Gauge::GridVoltage ==> extra.len() == 0,
        (g == Gauge::MeterCurrent || g == Gauge::MeterVolts) ==> extra.len() == 1,
        g == Gauge::GridVoltage || g == Gauge::MeterCurrent || g == Gauge::MeterVolts,
    ensures
        battery_samples_ok(phase_samples(g, seq![host, sn] + extra, p), host, sn),
{
    let xs = phase_samples(g, seq![host, sn] + extra, p);
    assert forall|i: int| 0 <= i < xs.len() implies battery_sample_ok(#[trigger] xs[i], host, sn) by {
        assert(xs[i].labels == (seq![host, sn] + extra).push(phase_label(i)));
        assert(xs[i].labels[0] == host);
        assert(xs[i].labels[1] == sn);
    }
}

proof fn lemma_status_samples_fit(host: Seq<char>, sn: Seq<char>, st: StatusView)
    ensures
        battery_samples_ok(status_samples_of(host, sn, st), host, sn),
{
    let a = count_samples(host, sn, st);
    assert(battery_samples_ok(a, host, sn)) by {
        assert forall|i: int| 0 <= i < a.len() implies battery_sample_ok(#[trigger] a[i], host, sn) by {}
    }
    let p0 = probe_sample(host, sn, "bdc"@, st.temperatures.0);
    let p1 = probe_sample(host, sn, "hmi"@, st.temperatures.1);
    let p2 = probe_sample(host, sn, "pu"@, st.temperatures.2);
    assert(battery_samples_ok(p0, host, sn));
    assert(battery_samples_ok(p1, host, sn));
    assert(battery_samples_ok(p2, host, sn));
    lemma_ok_concat(p0, p1, host, sn);
    lemma_ok_concat(p0 + p1, p2, host, sn);
    let b = temperature_samples(host, sn, st.temperatures);
    let c = seq![reading_sample(Gauge::GridFrequency, seq![host, sn], st.grid_frequency)];
    assert(battery_samples_ok(c, host, sn));
    let d = phase_samples(Gauge::GridVoltage, seq![host, sn], st.grid_voltage);
    lemma_phases_ok(Gauge::GridVoltage, host, sn, Seq::empty(), st.grid_voltage);
    assert(seq![host, sn] + Seq::<Seq<char>>::empty() =~= seq![host, sn]);
    lemma_directions_ok(Gauge::MeterCurrent, host, sn, st.current);
    lemma_directions_ok(Gauge::MeterVolts, host, sn, st.volts);
    let e = meter_samples(Gauge::MeterCurrent, host, sn, st.current);
    let f = meter_samples(Gauge::MeterVolts, host, sn, st.volts);
    lemma_ok_concat(a, b, host, sn);
    lemma_ok_concat(a + b, c, host, sn);
    lemma_ok_concat(a + b + c, d, host, sn);
    lemma_ok_concat(a + b + c + d, e, host, sn);
    lemma_ok_concat(a + b + c + d + e, f, host, sn);
}

proof fn lemma_directions_ok(
    g: Gauge,
    host: Seq<char>,
    sn: Seq<char>,
    dirs: (Option<Seq<Seq<char>>>, Option<Seq<Seq<char>>>),
)
    requires
        g == Gauge::MeterCurrent || g == Gauge::MeterVolts,
    ensures
        battery_samples_ok(meter_samples(g, host, sn, dirs), host, sn),
{
    let x = direction_samples(g, host, sn, "production"@, dirs.0);
    let y = direction_samples(g, host, sn, "consumption"@, dirs.1);
    match dirs.0 {
        Some(p) => {
            lemma_phases_ok(g, host, sn, seq!["production"@], p);
            assert(seq![host, sn] + seq!["production"@] =~= seq![host, sn, "production"@]);
        },
        None => {},
    }
    match dirs.1 {
        Some(p) => {
            lemma_phases_ok(g, host, sn, seq!["consumption"@], p);
            assert(seq![host, sn] + seq!["consumption"@] =~= seq![host, sn, "consumption"@]);
        },
        None => {},
    }
    lemma_ok_concat(x, y, host, sn);
}

/// Every sample of a battery fits its gauge, is not the build information,
/// and carries the battery's host and serial number as its first two
/// labels.
pub proof fn lemma_battery_samples_fit(s: ScrapeView)
    ensures
        battery_samples_ok(scrape_samples_of(s), s.host, s.sn),
{
    match s.status {
        Some(st) => lemma_status_samples_fit(s.host, s.sn, st),
        None => {},
    }
}

/// Every sample the exporter exports fits its gauge: it gives one value per
/// label of the gauge and a value of the kind the gauge holds, so setting
/// it in a registry of these gauges cannot fail.
pub proof fn lemma_metrics_fit_gauges(
    scrapes: Seq<ScrapeView>,
    version: Seq<char>,
    revision: Option<Seq<char>>,
    rust_version: Option<Seq<char>>,
)
    ensures
        forall|i: int|
            0 <= i < metrics_of(scrapes, version, revision, rust_version).len() ==> fits_gauge(
                #[trigger] metrics_of(scrapes, version, revision, rust_version)[i],
            ),
{
    lemma_all_scrapes_fit(scrapes);
    let m = metrics_of(scrapes, version, revision, rust_version);
    let a = all_scrape_samples(scrapes);
    assert forall|i: int| 0 <= i < m.len() implies fits_gauge(#[trigger] m[i]) by {
        if i < a.len() {
            assert(m[i] == a[i]);
        }
    }
}

proof fn lemma_all_scrapes_fit(scrapes: Seq<ScrapeView>)
    ensures
        forall|i: int|
            0 <= i < all_scrape_samples(scrapes).len() ==> fits_gauge(
                #[trigger] all_scrape_samples(scrapes)[i],
            ),
    decreases scrapes.len(),
{
    if scrapes.len() > 0 {
        let prev = scrapes.drop_last();
        lemma_all_scrapes_fit(prev);
        lemma_battery_samples_fit(scrapes.last());
        let last = scrapes.last();
        let a = all_scrape_samples(prev);
        let b = scrape_samples_of(scrapes.last());
        assert forall|i: int| 0 <= i < all_scrape_samples(scrapes).len() implies fits_gauge(
            #[trigger] all_scrape_samples(scrapes)[i],
        ) by {
            if i < a.len() {
                assert(all_scrape_samples(scrapes)[i] == a[i]);
            } else {
                assert(all_scrape_samples(scrapes)[i] == b[i - a.len()]);
                assert(battery_sample_ok(b[i - a.len()], last.host, last.sn));
            }
        }
    }
}

/// The first sample of a battery says whether it is online: one when its
/// status was read and says so, zero when its status says otherwise or
/// could not be read.
pub proof fn lemma_online_first(s: ScrapeView)
    ensures
        scrape_samples_of(s).len() >= 1,
        scrape_samples_of(s)[0] == int_sample(
            Gauge::Online,
            s.host,
            s.sn,
            match s.status {
                Some(st) => if st.online {
                    1
                } else {
                    0
                },
                None => 0,
            },
        ),
{
}

/// Reading a battery takes two documents: the main status at
/// `url + "/api/v1/status"`, then the power meter at
/// `url + "/api/powermeter"`; then nothing more is asked for, and the
/// status handed out is online and holds the counts of the first document
/// and the meter readings of the second over the initial status.
pub proof fn lemma_reader_protocol(url: Seq<char>, main_doc: Json, meter_doc: Json)
    requires
        status_doc_ready(main_doc),
        meter_doc_ready(meter_doc),
    ensures
        fresh_reader(url).next_request() == Some(url + status_path()),
        fresh_reader(url).accepts(main_doc),
        fresh_reader(url).receive(main_doc).next_request() == Some(url + power_meter_path()),
        fresh_reader(url).receive(main_doc).accepts(meter_doc),
        fresh_reader(url).receive(main_doc).receive(meter_doc).next_request() is None,
        fresh_reader(url).receive(main_doc).receive(meter_doc).finished_status() == (StatusView {
            online: true,
            ..after_power_meter(after_main_status(initial_status(), main_doc), meter_doc)
        }),
        fresh_reader(url).receive(main_doc).receive(meter_doc).finished_status().online,
{
}

/// A battery read to the end is reported online.
pub proof fn lemma_read_battery_online(
    host: Seq<char>,
    sn: Seq<char>,
    url: Seq<char>,
    main_doc: Json,
    meter_doc: Json,
)
    requires
        status_doc_ready(main_doc),
        meter_doc_ready(meter_doc),
    ensures
        ({
            let st = fresh_reader(url).receive(main_doc).receive(meter_doc).finished_status();
            scrape_samples_of(ScrapeView { host, sn, status: Some(st) })[0] == int_sample(
                Gauge::Online,
                host,
                sn,
                1,
            )
        }),
{
    let st = fresh_reader(url).receive(main_doc).receive(meter_doc).finished_status();
    lemma_online_first(ScrapeView { host, sn, status: Some(st) });
}


/// Two samples set the same series: the same gauge with the same label values.
pub open spec fn same_series(a: SampleView, b: SampleView) -> bool {
    a.gauge == b.gauge && a.labels == b.labels
}

/// No two samples of `xs` set the same series.
pub open spec fn series_distinct(xs: Seq<SampleView>) -> bool {
    forall|i: int, j: int|
        0 <= i < j < xs.len() ==> !same_series(#[trigger] xs[i], #[trigger] xs[j])
}

/// No sample of `xs` sets a series that a sample of `ys` sets.
pub open spec fn series_apart(xs: Seq<SampleView>, ys: Seq<SampleView>) -> bool {
    forall|i: int, j: int|
        0 <= i < xs.len() && 0 <= j < ys.len() ==> !same_series(#[trigger] xs[i], #[trigger] ys[j])
}

proof fn lemma_distinct_concat(xs: Seq<SampleView>, ys: Seq<SampleView>)
    requires
        series_distinct(xs),
        series_distinct(ys),
        series_apart(xs, ys),
    ensures
        series_distinct(xs + ys),
{
    let zs = xs + ys;
    assert forall|i: int, j: int| 0 <= i < j < zs.len() implies !same_series(
        #[trigger] zs[i],
        #[trigger] zs[j],
    ) by {
        if j < xs.len() {
            assert(zs[i] == xs[i] && zs[j] == xs[j]);
        } else if i >= xs.len() {
            assert(zs[i] == ys[i - xs.len()] && zs[j] == ys[j - xs.len()]);
        } else {
            assert(zs[i] == xs[i] && zs[j] == ys[j - xs.len()]);
        }
    }
}

proof fn lemma_apart_concat(xs: Seq<SampleView>, ys: Seq<SampleView>, zs: Seq<SampleView>)
    requires
        series_apart(xs, zs),
        series_apart(ys, zs),
    ensures
        series_apart(xs + ys, zs),
{
    let ws = xs + ys;
    assert forall|i: int, j: int| 0 <= i < ws.len() && 0 <= j < zs.len() implies !same_series(
        #[trigger] ws[i],
        #[trigger] zs[j],
    ) by {
        if i < xs.len() {
            assert(ws[i] == xs[i]);
        } else {
            assert(ws[i] == ys[i - xs.len()]);
        }
    }
}

/// Every sample of `xs` sets gauge `g`.
pub open spec fn all_of_gauge(xs: Seq<SampleView>, g: Gauge) -> bool {
    forall|i: int| 0 <= i < xs.len() ==> (#[trigger] xs[i]).gauge == g
}

proof fn lemma_apart_by_gauge(xs: Seq<SampleView>, g: Gauge, ys: Seq<SampleView>, h: Gauge)
    requires
        all_of_gauge(xs, g),
        all_of_gauge(ys, h),
        g != h,
    ensures
        series_apart(xs, ys),
{
    assert forall|i: int, j: int| 0 <= i < xs.len() && 0 <= j < ys.len() implies !same_series(
        #[trigger] xs[i],
        #[trigger] ys[j],
    ) by {
        assert(xs[i].gauge == g && ys[j].gauge == h);
    }
}

proof fn lemma_phase_labels_distinct()
    ensures
        phase_label(0) != phase_label(1),
        phase_label(0) != phase_label(2),
        phase_label(1) != phase_label(2),
{
    reveal_strlit("1");
    reveal_strlit("2");
    reveal_strlit("3");
    assert(phase_label(0)[0] != phase_label(1)[0]);
    assert(phase_label(0)[0] != phase_label(2)[0]);
    assert(phase_label(1)[0] != phase_label(2)[0]);
}

proof fn lemma_phases_distinct(g: Gauge, labels: Seq<Seq<char>>, p: Seq<Seq<char>>)
    ensures
        series_distinct(phase_samples(g, labels, p)),
        all_of_gauge(phase_samples(g, labels, p), g),
{
    lemma_phase_labels_distinct();
    let xs = phase_samples(g, labels, p);
    assert forall|i: int, j: int| 0 <= i < j < xs.len() implies !same_series(
        #[trigger] xs[i],
        #[trigger] xs[j],
    ) by {
        let n = labels.len() as int;
        assert(xs[i].labels[n] == phase_label(i));
        assert(xs[j].labels[n] == phase_label(j));
    }
}

/// Samples whose labels differ at position `k` set different series.
proof fn lemma_apart_by_label(xs: Seq<SampleView>, ys: Seq<SampleView>, k: int, a: Seq<char>, b: Seq<char>)
    requires
        a != b,
        forall|i: int| 0 <= i < xs.len() ==> (#[trigger] xs[i]).labels.len() > k && xs[i].labels[k] == a,
        forall|j: int| 0 <= j < ys.len() ==> (#[trigger] ys[j]).labels.len() > k && ys[j].labels[k] == b,
        0 <= k,
    ensures
        series_apart(xs, ys),
{
    assert forall|i: int, j: int| 0 <= i < xs.len() && 0 <= j < ys.len() implies !same_series(
        #[trigger] xs[i],
        #[trigger] ys[j],
    ) by {
        assert(xs[i].labels[k] == a);
        assert(ys[j].labels[k] == b);
    }
}

proof fn lemma_meter_distinct(
    g: Gauge,
    host: Seq<char>,
    sn: Seq<char>,
    d: (Option<Seq<Seq<char>>>, Option<Seq<Seq<char>>>),
)
    ensures
        series_distinct(meter_samples(g, host, sn, d)),
        all_of_gauge(meter_samples(g, host, sn, d), g),
{
    reveal_strlit("production");
    reveal_strlit("consumption");
    let x = direction_samples(g, host, sn, "production"@, d.0);
    let y = direction_samples(g, host, sn, "consumption"@, d.1);
    match d.0 {
        Some(p) => lemma_phases_distinct(g, seq![host, sn, "production"@], p),
        None => {},
    }
    match d.1 {
        Some(p) => lemma_phases_distinct(g, seq![host, sn, "consumption"@], p),
        None => {},
    }
    assert("production"@[0] != "consumption"@[0]);
    lemma_apart_by_label(x, y, 2, "production"@, "consumption"@);
    lemma_distinct_concat(x, y);
    let xy = x + y;
    assert forall|i: int| 0 <= i < xy.len() implies (#[trigger] xy[i]).gauge == g by {
        if i < x.len() {
            assert(xy[i] == x[i]);
        } else {
            assert(xy[i] == y[i - x.len()]);
        }
    }
}

proof fn lemma_temperatures_distinct(
    host: Seq<char>,
    sn: Seq<char>,
    t: (Option<Seq<char>>, Option<Seq<char>>, Option<Seq<char>>),
)
    ensures
        series_distinct(temperature_samples(host, sn, t)),
        all_of_gauge(temperature_samples(host, sn, t), Gauge::Temperature),
{
    reveal_strlit("bdc");
    reveal_strlit("hmi");
    reveal_strlit("pu");
    let p0 = probe_sample(host, sn, "bdc"@, t.0);
    let p1 = probe_sample(host, sn, "hmi"@, t.1);
    let p2 = probe_sample(host, sn, "pu"@, t.2);
    assert("bdc"@[0] != "hmi"@[0]);
    assert("bdc"@.len() != "pu"@.len());
    assert("hmi"@.len() != "pu"@.len());
    lemma_apart_by_label(p0, p1, 2, "bdc"@, "hmi"@);
    lemma_apart_by_label(p0, p2, 2, "bdc"@, "pu"@);
    lemma_apart_by_label(p1, p2, 2, "hmi"@, "pu"@);
    lemma_distinct_concat(p0, p1);
    lemma_apart_concat(p0, p1, p2);
    lemma_distinct_concat(p0 + p1, p2);
    let all = p0 + p1 + p2;
    assert forall|i: int| 0 <= i < all.len() implies (#[trigger] all[i]).gauge
        == Gauge::Temperature by {
        if i < p0.len() {
            assert(all[i] == p0[i]);
        } else if i < p0.len() + p1.len() {
            assert(all[i] == p1[i - p0.len()]);
        } else {
            assert(all[i] == p2[i - p0.len() - p1.len()]);
        }
    }
}

proof fn lemma_apart_int_decimal(xs: Seq<SampleView>, ys: Seq<SampleView>, g: Gauge)
    requires
        forall|i: int| 0 <= i < xs.len() ==> (#[trigger] xs[i]).gauge.spec_is_int(),
        all_of_gauge(ys, g),
        !g.spec_is_int(),
    ensures
        series_apart(xs, ys),
{
    assert forall|i: int, j: int| 0 <= i < xs.len() && 0 <= j < ys.len() implies !same_series(
        #[trigger] xs[i],
        #[trigger] ys[j],
    ) by {
        assert(ys[j].gauge == g);
        assert(xs[i].gauge.spec_is_int());
    }
}

/// No two samples of one battery set the same gauge with the same label
/// values, so the values a registry ends up with do not depend on the order
/// in which the samples are set.
pub proof fn lemma_battery_series_distinct(s: ScrapeView)
    ensures
        series_distinct(scrape_samples_of(s)),
{
    match s.status {
        Some(st) => lemma_status_series_distinct(s.host, s.sn, st),
        None => {},
    }
}

proof fn lemma_status_series_distinct(host: Seq<char>, sn: Seq<char>, st: StatusView)
    ensures
        series_distinct(status_samples_of(host, sn, st)),
{
    let a = count_samples(host, sn, st);
    let b = temperature_samples(host, sn, st.temperatures);
    let c = seq![reading_sample(Gauge::GridFrequency, seq![host, sn], st.grid_frequency)];
    let d = phase_samples(Gauge::GridVoltage, seq![host, sn], st.grid_voltage);
    let e = meter_samples(Gauge::MeterCurrent, host, sn, st.current);
    let f = meter_samples(Gauge::MeterVolts, host, sn, st.volts);
    assert(series_distinct(a)) by {
        assert forall|i: int, j: int| 0 <= i < j < a.len() implies !same_series(
            #[trigger] a[i],
            #[trigger] a[j],
        ) by {
            assert(a[i].gauge != a[j].gauge);
        }
    }
    lemma_temperatures_distinct(host, sn, st.temperatures);
    assert(all_of_gauge(c, Gauge::GridFrequency));
    assert(series_distinct(c));
    lemma_phases_distinct(Gauge::GridVoltage, seq![host, sn], st.grid_voltage);
    lemma_meter_distinct(Gauge::MeterCurrent, host, sn, st.current);
    lemma_meter_distinct(Gauge::MeterVolts, host, sn, st.volts);
    // the counts set integer gauges, every later sample a decimal one
    assert forall|i: int| 0 <= i < a.len() implies (#[trigger] a[i]).gauge.spec_is_int() by {}
    lemma_apart_int_decimal(a, b, Gauge::Temperature);
    lemma_apart_int_decimal(a, c, Gauge::GridFrequency);
    lemma_apart_int_decimal(a, d, Gauge::GridVoltage);
    lemma_apart_int_decimal(a, e, Gauge::MeterCurrent);
    lemma_apart_int_decimal(a, f, Gauge::MeterVolts);
    assert(series_apart(a, b));
    lemma_distinct_concat(a, b);
    assert(series_apart(a, c));
    lemma_apart_by_gauge(b, Gauge::Temperature, c, Gauge::GridFrequency);
    lemma_apart_concat(a, b, c);
    lemma_distinct_concat(a + b, c);
    assert(series_apart(a, d));
    lemma_apart_by_gauge(b, Gauge::Temperature, d, Gauge::GridVoltage);
    lemma_apart_by_gauge(c, Gauge::GridFrequency, d, Gauge::GridVoltage);
    lemma_apart_concat(a, b, d);
    lemma_apart_concat(a + b, c, d);
    lemma_distinct_concat(a + b + c, d);
    assert(series_apart(a, e));
    lemma_apart_by_gauge(b, Gauge::Temperature, e, Gauge::MeterCurrent);
    lemma_apart_by_gauge(c, Gauge::GridFrequency, e, Gauge::MeterCurrent);
    lemma_apart_by_gauge(d, Gauge::GridVoltage, e, Gauge::MeterCurrent);
    lemma_apart_concat(a, b, e);
    lemma_apart_concat(a + b, c, e);
    lemma_apart_concat(a + b + c, d, e);
    lemma_distinct_concat(a + b + c + d, e);
    assert(series_apart(a, f));
    lemma_apart_by_gauge(b, Gauge::Temperature, f, Gauge::MeterVolts);
    lemma_apart_by_gauge(c, Gauge::GridFrequency, f, Gauge::MeterVolts);
    lemma_apart_by_gauge(d, Gauge::GridVoltage, f, Gauge::MeterVolts);
    lemma_apart_by_gauge(e, Gauge::MeterCurrent, f, Gauge::MeterVolts);
    lemma_apart_concat(a, b, f);
    lemma_apart_concat(a + b, c, f);
    lemma_apart_concat(a + b + c, d, f);
    lemma_apart_concat(a + b + c + d, e, f);
    lemma_distinct_concat(a + b + c + d + e, f);
}


/// A sample as a battery read from its API exports it: no temperature,
/// a grid frequency or grid voltage of zero, and every reading one that
/// reads as an `f64`.
pub open spec fn without_inverter(x: SampleView) -> bool {
    &&& x.gauge != Gauge::Temperature
    &&& (x.gauge == Gauge::GridFrequency || x.gauge == Gauge::GridVoltage) ==> x.value
        == ValueView::Reading(zero_reading())
    &&& x.value matches ValueView::Reading(r) ==> float_text(r)
}

/// Every sample of `xs` is as a battery read from its API exports it.
pub open spec fn all_without_inverter(xs: Seq<SampleView>) -> bool {
    forall|i: int| 0 <= i < xs.len() ==> without_inverter(#[trigger] xs[i])
}

proof fn lemma_without_inverter_concat(xs: Seq<SampleView>, ys: Seq<SampleView>)
    requires
        all_without_inverter(xs),
        all_without_inverter(ys),
    ensures
        all_without_inverter(xs + ys),
{
    assert forall|i: int| 0 <= i < (xs + ys).len() implies without_inverter(
        #[trigger] (xs + ys)[i],
    ) by {
        if i >= xs.len() {
            assert((xs + ys)[i] == ys[i - xs.len()]);
        }
    }
}

proof fn lemma_small_numbers_are_float_text()
    ensures
        float_text(zero_reading()),
        float_text("1"@),
{
    reveal_strlit("1");
    let z = zero_reading();
    assert(without_sign(z) == z);
    assert(is_digit(z[0]));
    assert(decimal_mantissa(z));
    let o = "1"@;
    assert(without_sign(o) == o);
    assert(is_digit(o[0]));
    assert(decimal_mantissa(o));
}

proof fn lemma_meter_without_inverter(g: Gauge, host: Seq<char>, sn: Seq<char>, e: Seq<(String, Json)>, d: Seq<char>)
    requires
        meter_ready(e),
        g == Gauge::MeterCurrent || g == Gauge::MeterVolts,
    ensures
        all_without_inverter(
            phase_samples(
                g,
                seq![host, sn, d],
                if g == Gauge::MeterCurrent {
                    meter_currents(e)
                } else {
                    meter_volts(e)
                },
            ),
        ),
{
}

proof fn lemma_read_status_without_inverter(host: Seq<char>, sn: Seq<char>, st: StatusView)
    requires
        read_from_battery(st),
    ensures
        all_without_inverter(status_samples_of(host, sn, st)),
{
    let (url, main_doc, meter_doc) = choose|url: Seq<char>, main_doc: Json, meter_doc: Json|
        status_doc_ready(main_doc) && meter_doc_ready(meter_doc) && st == #[trigger] read_status(
            url,
            main_doc,
            meter_doc,
        );
    lemma_small_numbers_are_float_text();
    let p = meter_doc.spec_object_field("4_1"@).unwrap();
    let c = meter_doc.spec_object_field("5_1"@).unwrap();
    assert(st.temperatures == (None::<Seq<char>>, None::<Seq<char>>, None::<Seq<char>>));
    assert(st.grid_frequency == zero_reading());
    assert(st.grid_voltage == seq![zero_reading(), zero_reading(), zero_reading()]);
    assert(st.current == (Some(meter_currents(p)), Some(meter_currents(c))));
    assert(st.volts == (Some(meter_volts(p)), Some(meter_volts(c))));
    let a = count_samples(host, sn, st);
    let b = temperature_samples(host, sn, st.temperatures);
    let c0 = seq![reading_sample(Gauge::GridFrequency, seq![host, sn], st.grid_frequency)];
    let d = phase_samples(Gauge::GridVoltage, seq![host, sn], st.grid_voltage);
    let e = meter_samples(Gauge::MeterCurrent, host, sn, st.current);
    let f = meter_samples(Gauge::MeterVolts, host, sn, st.volts);
    assert(all_without_inverter(a));
    assert(b =~= Seq::<SampleView>::empty());
    assert(all_without_inverter(b));
    assert(all_without_inverter(c0));
    assert(all_without_inverter(d));
    lemma_meter_without_inverter(Gauge::MeterCurrent, host, sn, p, "production"@);
    lemma_meter_without_inverter(Gauge::MeterCurrent, host, sn, c, "consumption"@);
    lemma_meter_without_inverter(Gauge::MeterVolts, host, sn, p, "production"@);
    lemma_meter_without_inverter(Gauge::MeterVolts, host, sn, c, "consumption"@);
    lemma_without_inverter_concat(
        direction_samples(Gauge::MeterCurrent, host, sn, "production"@, st.current.0),
        direction_samples(Gauge::MeterCurrent, host, sn, "consumption"@, st.current.1),
    );
    lemma_without_inverter_concat(
        direction_samples(Gauge::MeterVolts, host, sn, "production"@, st.volts.0),
        direction_samples(Gauge::MeterVolts, host, sn, "consumption"@, st.volts.1),
    );
    lemma_without_inverter_concat(a, b);
    lemma_without_inverter_concat(a + b, c0);
    lemma_without_inverter_concat(a + b + c0, d);
    lemma_without_inverter_concat(a + b + c0 + d, e);
    lemma_without_inverter_concat(a + b + c0 + d + e, f);
}

proof fn lemma_scrapes_without_inverter(scrapes: Seq<ScrapeView>)
    requires
        forall|i: int|
            0 <= i < scrapes.len() ==> ((#[trigger] scrapes[i]).status matches Some(st)
                ==> read_from_battery(st)),
    ensures
        all_without_inverter(all_scrape_samples(scrapes)),
    decreases scrapes.len(),
{
    if scrapes.len() > 0 {
        let prev = scrapes.drop_last();
        assert forall|i: int| 0 <= i < prev.len() implies ((#[trigger] prev[i]).status matches Some(
            st,
        ) ==> read_from_battery(st)) by {
            assert(prev[i] == scrapes[i]);
        }
        lemma_scrapes_without_inverter(prev);
        let last = scrapes.last();
        assert(last == scrapes[scrapes.len() - 1]);
        match last.status {
            Some(st) => lemma_read_status_without_inverter(last.host, last.sn, st),
            None => {},
        }
        lemma_without_inverter_concat(all_scrape_samples(prev), scrape_samples_of(last));
    }
}

/// Whatever sequence of metrics calls reads batteries from their API (every
/// status `SonnenReader::status` hands out is read from a battery), no
/// call exports a temperature, every grid frequency and grid voltage it
/// exports is zero (the status is never completed from the inverter
/// document), and every reading it exports reads as an `f64`. So a registry
/// that only ever receives these samples never holds a temperature, and
/// holds zero for every grid frequency and grid voltage.
pub proof fn lemma_metrics_without_inverter(
    calls: Seq<Seq<ScrapeView>>,
    version: Seq<char>,
    revision: Option<Seq<char>>,
    rust_version: Option<Seq<char>>,
)
    requires
        forall|k: int, i: int|
            0 <= k < calls.len() && 0 <= i < calls[k].len() ==> ((#[trigger] calls[k][i]).status matches Some(
                st,
            ) ==> read_from_battery(st)),
    ensures
        forall|k: int, j: int|
            0 <= k < calls.len() && 0 <= j < metrics_of(calls[k], version, revision, rust_version).len()
                ==> without_inverter(
                #[trigger] metrics_of(calls[k], version, revision, rust_version)[j],
            ),
{
    assert forall|k: int, j: int|
        0 <= k < calls.len() && 0 <= j < metrics_of(calls[k], version, revision, rust_version).len()
        implies without_inverter(
        #[trigger] metrics_of(calls[k], version, revision, rust_version)[j],
    ) by {
        let sc = calls[k];
        assert forall|i: int| 0 <= i < sc.len() implies ((#[trigger] sc[i]).status matches Some(
            st,
        ) ==> read_from_battery(st)) by {
            assert(sc[i] == calls[k][i]);
        }
        lemma_scrapes_without_inverter(sc);
        lemma_small_numbers_are_float_text();
        let m = metrics_of(sc, version, revision, rust_version);
        let a = all_scrape_samples(sc);
        if j < a.len() {
            assert(m[j] == a[j]);
        }
    }
}

} // verus!
