//! The metrics registry: one labeled request counter, one labeled latency
//! histogram, and their text exposition.
//!
//! Every finished request is recorded once in each, in the series of the
//! same labels `(status, method, path)`. The collectors are Prometheus
//! collectors. What they hold is named by spec functions without a body,
//! and what this module proves is how the library drives them: which
//! series a request moves, which duration it hands over, that no other
//! series moves, and that a scrape is what gathering and encoding the two
//! collectors yields.

use crate::text::decimal;
use crate::text::decimal_digits;
use prometheus::Encoder;
use prometheus::HistogramOpts;
use prometheus::HistogramVec;
use prometheus::IntCounterVec;
use prometheus::Opts;
use prometheus::Registry;
use prometheus::TextEncoder;
use vstd::prelude::*;
use vstd::string::StringExecFns;
use vstd::utf8::decode_utf8;
use vstd::utf8::encode_utf8_decode_utf8;
use vstd::utf8::valid_utf8;

verus! {

/// The largest bucket bound a histogram is made with, in microseconds.
pub const LARGEST_BOUND_MICROS: u64 = 1_000_000_000_000;

/// `prometheus::Registry`, the set of registered collectors.
#[verifier::external_type_specification]
#[verifier::external_body]
pub struct ExRegistry(Registry);

/// `prometheus::Error`, what the Prometheus calls fail with.
#[verifier::external_type_specification]
#[verifier::external_body]
pub struct ExPrometheusError(prometheus::Error);

/// `prometheus::proto::MetricFamily`, one gathered family of samples.
#[verifier::external_type_specification]
#[verifier::external_body]
pub struct ExMetricFamily(prometheus::proto::MetricFamily);

/// A handle to a `prometheus::IntCounterVec` with three labels. The type of
/// its builder cannot be named outside its crate, so the handle is held
/// behind this struct and reached through the functions below.
#[verifier::external_body]
pub struct RequestCounter {
    inner: IntCounterVec,
}

/// A handle to a `prometheus::HistogramVec` with three labels, held like
/// [`RequestCounter`].
#[verifier::external_body]
pub struct DurationHistogram {
    inner: HistogramVec,
}

/// The key a vector stores the series of some label values under: the
/// 64-bit FNV-1a hash of the bytes of the values, written one after the
/// other with nothing between them. `labels` is that run of values as one
/// text.
pub uninterp spec fn label_hash(labels: Seq<char>) -> u64;

/// How often the series that a counter vector stores under `key` was
/// incremented, zero if there is no such series. A scrape shows this
/// count, as long as it fits into 64 bits.
pub uninterp spec fn counted(counter: RequestCounter, key: u64) -> nat;

/// The durations that were handed to the series that a histogram vector
/// stores under `key`, in nanoseconds and in the order in which they came;
/// empty if there is no such series.
pub uninterp spec fn observed(histogram: DurationHistogram, key: u64) -> Seq<u64>;

/// What a counter vector was made with: its metric name, followed by its
/// label names in their order.
pub uninterp spec fn counter_made_with(counter: RequestCounter) -> Seq<Seq<char>>;

/// What a histogram vector was made with: its metric name, followed by its
/// label names in their order.
pub uninterp spec fn histogram_made_with(histogram: DurationHistogram) -> Seq<Seq<char>>;

/// The upper bounds of the buckets a histogram vector was made with, in
/// microseconds.
pub uninterp spec fn histogram_bounds(histogram: DurationHistogram) -> Seq<u64>;

/// A token for the vector of series that a counter handle shares with its
/// clones. A handle keeps its vector while the series in it change. The
/// token says which vector it is, not where it lies.
pub uninterp spec fn counter_vector(counter: RequestCounter) -> int;

/// A token for the vector of series that a histogram handle shares with
/// its clones, as [`counter_vector`].
pub uninterp spec fn histogram_vector(histogram: DurationHistogram) -> int;

/// The id Prometheus gives the descriptor of a metric with the given name
/// and without constant labels: a 64-bit FNV-1a hash of the name. A
/// registry tells its collectors apart by it.
pub uninterp spec fn descriptor_id(name: Seq<char>) -> u64;

/// The vectors a registry gathers from, each under the id of its
/// descriptor.
pub uninterp spec fn collected_by(registry: Registry) -> Map<u64, int>;

/// Whether a registry is as `Registry::new` made it, but for vectors
/// without constant labels that it accepted one by one: it has no prefix
/// and no labels of its own, nothing was taken out of it, and it knows no
/// descriptor but those of the vectors it gathers from.
pub uninterp spec fn is_plain(registry: Registry) -> bool;

/// What `Registry::gather` returns for a plain registry that gathers from
/// just these two vectors, as they stand: their families in the order of
/// their names, each with its series in the order of their label values.
/// A vector without series has no family.
pub uninterp spec fn gathered(counter: RequestCounter, histogram: DurationHistogram) -> Seq<
    prometheus::proto::MetricFamily,
>;

/// What `TextEncoder::encode` makes of some families: the bytes of their
/// text exposition, or the message of the error it fails with.
pub uninterp spec fn text_encoding(families: Seq<prometheus::proto::MetricFamily>) -> Result<
    Seq<u8>,
    Seq<char>,
>;

/// The `Display` text of a Prometheus error.
pub uninterp spec fn message_of(error: prometheus::Error) -> Seq<char>;

/// Why the registry could not be built or read.
pub enum MetricsError {
    /// A collector was refused at creation or registration.
    Setup(String),
    /// The encoder failed on the gathered families.
    Encode(String),
    /// The encoder produced bytes that are not UTF-8.
    NotText,
}

/// Whether `c` may stand in a name: an ASCII letter or an underscore, and
/// in a metric name also a colon.
pub open spec fn is_name_char(c: char, metric: bool) -> bool {
    let code = c as u32;
    ||| 0x41 <= code <= 0x5a
    ||| 0x61 <= code <= 0x7a
    ||| code == 0x5f
    ||| metric && code == 0x3a
}

/// Whether `text` is a name as Prometheus asks for it: it begins with a
/// name character, and name characters and ASCII digits follow.
pub open spec fn is_name(text: Seq<char>, metric: bool) -> bool {
    &&& text.len() > 0
    &&& is_name_char(text[0], metric)
    &&& forall|i: int|
        0 <= i < text.len() ==> is_name_char(#[trigger] text[i], metric) || 0x30 <= (text[i] as u32)
            <= 0x39
}

/// Whether Prometheus accepts a descriptor with this metric name, this
/// help text and these three labels: the help is not empty, the names are
/// well formed, and no label comes twice.
pub open spec fn describable(
    name: Seq<char>,
    help: Seq<char>,
    first: Seq<char>,
    second: Seq<char>,
    third: Seq<char>,
) -> bool {
    &&& help.len() > 0
    &&& is_name(name, true)
    &&& is_name(first, false)
    &&& is_name(second, false)
    &&& is_name(third, false)
    &&& first != second
    &&& first != third
    &&& second != third
}

/// No vectors at all.
pub open spec fn no_vectors() -> Map<u64, int> {
    Map::empty()
}

/// `Registry::new`: a plain registry that gathers from nothing.
#[verifier::external_body]
fn new_registry() -> (registry: Registry)
    ensures
        is_plain(registry),
        collected_by(registry) == no_vectors(),
{
    Registry::new()
}

/// `IntCounterVec::new` over `Opts::new(name, help)` with three label
/// names. It succeeds exactly when the descriptor is accepted. The vector
/// then carries that name and those labels and has no series yet.
#[verifier::external_body]
fn new_counter(name: &str, help: &str, first: &str, second: &str, third: &str) -> (r: Result<
    RequestCounter,
    prometheus::Error,
>)
    ensures
        r is Ok <==> describable(name@, help@, first@, second@, third@),
        r matches Ok(counter) ==> forall|key: u64| #[trigger] counted(counter, key) == 0,
        (r matches Ok(counter) ==> counter_made_with(counter) == seq![
            name@,
            first@,
            second@,
            third@,
        ]),
{
    IntCounterVec::new(Opts::new(name, help), &[first, second, third]).map(
        |inner| RequestCounter { inner },
    )
}

/// The label Prometheus keeps for the bounds of histogram buckets.
pub open spec fn bucket_label() -> Seq<char> {
    seq!['l', 'e']
}

/// Bucket bounds a histogram can be made with: at least one, in
/// increasing order, and small enough that their values in seconds stay
/// apart.
pub open spec fn usable_bounds(bounds_micros: Seq<u64>) -> bool {
    &&& bounds_micros.len() > 0
    &&& forall|i: int, j: int|
        0 <= i < j < bounds_micros.len() ==> bounds_micros[i] < bounds_micros[j]
    &&& forall|i: int|
        0 <= i < bounds_micros.len() ==> #[trigger] bounds_micros[i] <= LARGEST_BOUND_MICROS
}

/// `HistogramVec::new` over `HistogramOpts::new(name, help)` with the given
/// bucket bounds, handed over in microseconds and turned into seconds, and
/// three label names. It succeeds exactly when the descriptor is accepted.
/// The vector then carries that name, those labels and those bounds, and
/// has no series yet. Prometheus looks at the bounds and at the label names
/// only when the first series is made and panics there if the bounds are
/// not increasing or a label is called `le`, and it takes bounds of its own
/// when it is given none, so none of these is accepted here.
#[verifier::external_body]
fn new_histogram(
    name: &str,
    help: &str,
    bounds_micros: &Vec<u64>,
    first: &str,
    second: &str,
    third: &str,
) -> (r: Result<DurationHistogram, prometheus::Error>)
    requires
        usable_bounds(bounds_micros@),
        first@ != bucket_label(),
        second@ != bucket_label(),
        third@ != bucket_label(),
    ensures
        r is Ok <==> describable(name@, help@, first@, second@, third@),
        (r matches Ok(histogram) ==> forall|key: u64| #[trigger]
            observed(histogram, key) == Seq::<u64>::empty()),
        (r matches Ok(histogram) ==> histogram_made_with(histogram) == seq![
            name@,
            first@,
            second@,
            third@,
        ]),
        r matches Ok(histogram) ==> histogram_bounds(histogram) == bounds_micros@,
{
    let bounds = bounds_micros.iter().map(
        |micros| std::time::Duration::from_micros(*micros).as_secs_f64(),
    ).collect();
    let opts = HistogramOpts::new(name, help).buckets(bounds);
    HistogramVec::new(opts, &[first, second, third]).map(|inner| DurationHistogram { inner })
}

/// `Registry::register` on a clone of the counter handle. A registry takes
/// a vector under the id of its descriptor and changes only when it takes
/// one. A plain registry takes it exactly when it holds nothing under that
/// id, and stays plain.
#[verifier::external_body]
fn register_counter(registry: &mut Registry, counter: &RequestCounter) -> (r: Result<
    (),
    prometheus::Error,
>)
    ensures
        is_plain(*old(registry)) ==> (r is Ok <==> !collected_by(*old(registry)).contains_key(
            descriptor_id(counter_made_with(*counter)[0]),
        )),
        is_plain(*old(registry)) ==> is_plain(*final(registry)),
        r is Ok ==> collected_by(*final(registry)) == collected_by(*old(registry)).insert(
            descriptor_id(counter_made_with(*counter)[0]),
            counter_vector(*counter),
        ),
        r is Err ==> collected_by(*final(registry)) == collected_by(*old(registry)),
{
    registry.register(Box::new(counter.inner.clone()))
}

/// `Registry::register` on a clone of the histogram handle, with the same
/// contract as [`register_counter`].
#[verifier::external_body]
fn register_histogram(registry: &mut Registry, histogram: &DurationHistogram) -> (r: Result<
    (),
    prometheus::Error,
>)
    ensures
        is_plain(*old(registry)) ==> (r is Ok <==> !collected_by(*old(registry)).contains_key(
            descriptor_id(histogram_made_with(*histogram)[0]),
        )),
        is_plain(*old(registry)) ==> is_plain(*final(registry)),
        r is Ok ==> collected_by(*final(registry)) == collected_by(*old(registry)).insert(
            descriptor_id(histogram_made_with(*histogram)[0]),
            histogram_vector(*histogram),
        ),
        r is Err ==> collected_by(*final(registry)) == collected_by(*old(registry)),
{
    registry.register(Box::new(histogram.inner.clone()))
}

/// The key of the series with the given label values.
pub open spec fn series_key(status: Seq<char>, method: Seq<char>, path: Seq<char>) -> u64 {
    label_hash(status + method + path)
}

/// `with_label_values(..).inc()`: the series stored under the key of these
/// label values is incremented once more, and no other series changes. The
/// handle points to the same vector, made with what it was made with. The
/// call does not panic: the vector was made with three labels, which is
/// what is passed.
#[verifier::external_body]
fn increment(counter: &mut RequestCounter, status: &str, method: &str, path: &str)
    ensures
        counted(*final(counter), label_hash(status@ + method@ + path@)) == counted(
            *old(counter),
            label_hash(status@ + method@ + path@),
        ) + 1,
        forall|key: u64|
            key != label_hash(status@ + method@ + path@) ==> #[trigger] counted(
                *final(counter),
                key,
            ) == counted(*old(counter), key),
        counter_made_with(*final(counter)) == counter_made_with(*old(counter)),
        counter_vector(*final(counter)) == counter_vector(*old(counter)),
    no_unwind
{
    counter.inner.with_label_values(&[status, method, path]).inc();
}

/// `with_label_values(..).observe(seconds)`, with the duration handed over
/// in nanoseconds and turned into seconds: the series stored under the key
/// of these label values is handed this duration after those it had, and no
/// other series changes. The handle points to the same vector, made with
/// what it was made with. The call does not panic: three label values are
/// passed, and the vector was made with bounds and labels that Prometheus
/// accepts when it makes a series.
#[verifier::external_body]
fn observe(
    histogram: &mut DurationHistogram,
    status: &str,
    method: &str,
    path: &str,
    duration_nanos: u64,
)
    ensures
        observed(*final(histogram), label_hash(status@ + method@ + path@)) == observed(
            *old(histogram),
            label_hash(status@ + method@ + path@),
        ).push(duration_nanos),
        forall|key: u64|
            key != label_hash(status@ + method@ + path@) ==> #[trigger] observed(
                *final(histogram),
                key,
            ) == observed(*old(histogram), key),
        histogram_made_with(*final(histogram)) == histogram_made_with(*old(histogram)),
        histogram_bounds(*final(histogram)) == histogram_bounds(*old(histogram)),
        histogram_vector(*final(histogram)) == histogram_vector(*old(histogram)),
    no_unwind
{
    let seconds = std::time::Duration::from_nanos(duration_nanos).as_secs_f64();
    histogram.inner.with_label_values(&[status, method, path]).observe(seconds);
}

/// Whether a registry is plain and gathers from just the vectors that the
/// two handles point to.
pub open spec fn gathers_both(
    registry: Registry,
    counter: RequestCounter,
    histogram: DurationHistogram,
) -> bool {
    let counter_id = descriptor_id(counter_made_with(counter)[0]);
    let histogram_id = descriptor_id(histogram_made_with(histogram)[0]);
    &&& is_plain(registry)
    &&& counter_id != histogram_id
    &&& collected_by(registry) == no_vectors().insert(counter_id, counter_vector(counter)).insert(
        histogram_id,
        histogram_vector(histogram),
    )
}

/// Whether some families are what a registry gathers from a counter vector
/// and a histogram vector.
pub open spec fn gathered_from_vectors(families: Seq<prometheus::proto::MetricFamily>) -> bool {
    exists|counter: RequestCounter, histogram: DurationHistogram|
        families == #[trigger] gathered(counter, histogram)
}

/// `Registry::gather`: the families of all registered collectors, as they
/// stand when called. The handles are those of the vectors that the
/// registry is to gather from; when it gathers from just these, the
/// families are theirs.
#[verifier::external_body]
fn gather(registry: &Registry, counter: &RequestCounter, histogram: &DurationHistogram) -> (families:
    Vec<prometheus::proto::MetricFamily>)
    ensures
        gathers_both(*registry, *counter, *histogram) ==> families@ == gathered(
            *counter,
            *histogram,
        ),
{
    registry.gather()
}

/// `TextEncoder::encode` into a fresh buffer, which is handed back when
/// the encoder succeeds. The encoder panics on a family without a type;
/// those of a counter vector and a histogram vector have one.
#[verifier::external_body]
fn encode_text(families: &Vec<prometheus::proto::MetricFamily>) -> (r: Result<
    Vec<u8>,
    prometheus::Error,
>)
    requires
        gathered_from_vectors(families@),
    ensures
        match r {
            Ok(buffer) => text_encoding(families@) == Ok::<Seq<u8>, Seq<char>>(buffer@),
            Err(error) => text_encoding(families@) == Err::<Seq<u8>, Seq<char>>(
                message_of(error),
            ),
        },
{
    let mut buffer: Vec<u8> = Vec::new();
    TextEncoder::new().encode(families, &mut buffer).map(|_| buffer)
}

/// The `Display` text of a Prometheus error.
#[verifier::external_body]
fn describe(error: &prometheus::Error) -> (text: String)
    ensures
        text@ == message_of(*error),
{
    error.to_string()
}

/// Upper bounds of the latency buckets, in microseconds: 5 ms to 1 s.
pub open spec fn latency_bounds_micros() -> Seq<u64> {
    seq![5_000, 10_000, 25_000, 50_000, 100_000, 250_000, 500_000, 1_000_000]
}

/// The bucket bounds as handed to the histogram.
fn latency_bounds() -> (bounds: Vec<u64>)
    ensures
        bounds@ == latency_bounds_micros(),
{
    let bounds: Vec<u64> = vec![
        5_000,
        10_000,
        25_000,
        50_000,
        100_000,
        250_000,
        500_000,
        1_000_000,
    ];
    assert(bounds@ =~= latency_bounds_micros());
    bounds
}

/// The outcome of encoding as plain values: the bytes, or the message of
/// the failure.
pub open spec fn outcome_of(encoded: Result<Vec<u8>, String>) -> Result<Seq<u8>, Seq<char>> {
    match encoded {
        Ok(buffer) => Ok(buffer@),
        Err(message) => Err(message@),
    }
}

/// What a scrape yields for what the encoder produced: the bytes read as
/// text, a text error when they are not UTF-8, and the encoder's failure
/// with its message otherwise.
pub open spec fn exposition_of(encoded: Result<Seq<u8>, Seq<char>>, r: Result<String, MetricsError>) -> bool {
    match encoded {
        Ok(bytes) => if valid_utf8(bytes) {
            r matches Ok(text) && text@ == decode_utf8(bytes)
        } else {
            r matches Err(error) && error is NotText
        },
        Err(message) => r matches Err(MetricsError::Encode(text)) && text@ == message,
    }
}

/// Turns the outcome of encoding, bytes or the message of a failure, into
/// the outcome of a scrape.
pub fn exposition_text(encoded: Result<Vec<u8>, String>) -> (r: Result<String, MetricsError>)
    ensures
        exposition_of(outcome_of(encoded), r),
{
    match encoded {
        Err(message) => Err(MetricsError::Encode(message)),
        Ok(buffer) => match core::str::from_utf8(buffer.as_slice()) {
            Ok(text) => {
                proof {
                    encode_utf8_decode_utf8(text@);
                }
                Ok(String::from_str(text))
            },
            Err(_) => Err(MetricsError::NotText),
        },
    }
}

/// How many of some durations, in nanoseconds, are no longer than a bound
/// in microseconds.
pub open spec fn within_bound(durations_nanos: Seq<u64>, bound_micros: u64) -> nat {
    durations_nanos.filter(|nanos: u64| nanos <= bound_micros * 1000).len()
}

/// The request counter and latency histogram of one proxy, registered in a
/// registry of their own.
pub struct Metrics {
    registry: Registry,
    http_requests_total: RequestCounter,
    http_request_duration_seconds: DurationHistogram,
}

impl Metrics {
    /// The registry gathers from the counter and the histogram and from
    /// nothing else, and the two are the families of the proxy.
    #[verifier::type_invariant]
    closed spec fn well_formed(&self) -> bool {
        &&& self.gathers_own()
        &&& self.has_proxy_families()
    }

    /// The registry is of this value's own making and gathers from its
    /// counter and its histogram, and from nothing else.
    pub closed spec fn gathers_own(&self) -> bool {
        gathers_both(self.registry, self.http_requests_total, self.http_request_duration_seconds)
    }

    /// How many requests were counted in the series of the given labels.
    pub closed spec fn requests(&self, status: Seq<char>, method: Seq<char>, path: Seq<char>) -> nat {
        counted(self.http_requests_total, series_key(status, method, path))
    }

    /// The durations observed in the series of the given labels, in
    /// nanoseconds and in the order in which they came.
    pub closed spec fn observations(&self, status: Seq<char>, method: Seq<char>, path: Seq<char>) -> Seq<
        u64,
    > {
        observed(self.http_request_duration_seconds, series_key(status, method, path))
    }

    /// Nothing has been recorded yet.
    pub open spec fn is_fresh(&self) -> bool {
        forall|s: Seq<char>, m: Seq<char>, p: Seq<char>|
            #![trigger self.requests(s, m, p)]
            #![trigger self.observations(s, m, p)]
            self.requests(s, m, p) == 0 && self.observations(s, m, p) == Seq::<u64>::empty()
    }

    /// The metric name of the request counter, followed by its labels.
    pub closed spec fn counter_family(&self) -> Seq<Seq<char>> {
        counter_made_with(self.http_requests_total)
    }

    /// The metric name of the latency histogram, followed by its labels.
    pub closed spec fn histogram_family(&self) -> Seq<Seq<char>> {
        histogram_made_with(self.http_request_duration_seconds)
    }

    /// The upper bounds of the latency buckets, in microseconds.
    pub closed spec fn bucket_bounds(&self) -> Seq<u64> {
        histogram_bounds(self.http_request_duration_seconds)
    }

    /// What gathering and encoding yields as things stand: the bytes of the
    /// text exposition of the two families, or the message of the encoder's
    /// failure.
    pub closed spec fn scrape_outcome(&self) -> Result<Seq<u8>, Seq<char>> {
        text_encoding(gathered(self.http_requests_total, self.http_request_duration_seconds))
    }

    /// The two collectors are the families of the proxy: the counter
    /// `http_requests_total` and the histogram
    /// `http_request_duration_seconds` with its eight buckets from 5 ms to
    /// 1 s, both labeled by status, method and path.
    pub open spec fn has_proxy_families(&self) -> bool {
        &&& self.counter_family() == seq![
            "http_requests_total"@,
            "status"@,
            "method"@,
            "path"@,
        ]
        &&& self.histogram_family() == seq![
            "http_request_duration_seconds"@,
            "status"@,
            "method"@,
            "path"@,
        ]
        &&& self.bucket_bounds() == latency_bounds_micros()
    }

    /// Whether a registry can hold both families: it tells them apart by the
    /// ids of their descriptors, which are hashes of their names.
    pub open spec fn families_told_apart() -> bool {
        descriptor_id("http_requests_total"@) != descriptor_id("http_request_duration_seconds"@)
    }

    /// Builds the registry with `http_requests_total` and
    /// `http_request_duration_seconds`, both labeled by status, method and
    /// path. Both collectors are always accepted at creation, and the
    /// registry takes both exactly when it can tell them apart. It then
    /// gathers from these two and from nothing else, and nothing is recorded
    /// yet. A refusal is reported as a setup error.
    pub fn new() -> (r: Result<Metrics, MetricsError>)
        ensures
            r is Ok <==> Metrics::families_told_apart(),
            r matches Ok(metrics) ==> metrics.is_fresh() && metrics.has_proxy_families()
                && metrics.gathers_own(),
            r matches Err(error) ==> error is Setup,
    {
        proof {
            lemma_names_are_describable();
        }
        let mut registry = new_registry();
        let counter = match new_counter(
            "http_requests_total",
            "Total number of HTTP requests",
            "status",
            "method",
            "path",
        ) {
            Ok(counter) => counter,
            Err(error) => {
                return Err(MetricsError::Setup(describe(&error)));
            },
        };
        let bounds = latency_bounds();
        let histogram = match new_histogram(
            "http_request_duration_seconds",
            "HTTP request duration in seconds",
            &bounds,
            "status",
            "method",
            "path",
        ) {
            Ok(histogram) => histogram,
            Err(error) => {
                return Err(MetricsError::Setup(describe(&error)));
            },
        };
        match register_counter(&mut registry, &counter) {
            Ok(()) => {},
            Err(error) => {
                return Err(MetricsError::Setup(describe(&error)));
            },
        }
        match register_histogram(&mut registry, &histogram) {
            Ok(()) => {},
            Err(error) => {
                return Err(MetricsError::Setup(describe(&error)));
            },
        }
        Ok(
            Metrics {
                registry,
                http_requests_total: counter,
                http_request_duration_seconds: histogram,
            },
        )
    }

    /// Encodes everything recorded so far in the Prometheus text format:
    /// the encoder's bytes read as text. A failure is either the encoder's,
    /// with its message, or bytes that are not text.
    pub fn encode(&self) -> (r: Result<String, MetricsError>)
        ensures
            exposition_of(self.scrape_outcome(), r),
    {
        proof {
            use_type_invariant(self);
        }
        let families = gather(
            &self.registry,
            &self.http_requests_total,
            &self.http_request_duration_seconds,
        );
        let encoded = match encode_text(&families) {
            Ok(buffer) => Ok(buffer),
            Err(error) => Err(describe(&error)),
        };
        exposition_text(encoded)
    }

    /// Compared with `before`, one more request was counted and one more
    /// duration, `duration_nanos`, observed in the series of the given
    /// labels, and every series with another key is as it was.
    pub open spec fn recorded_once_since(
        &self,
        before: Metrics,
        status: Seq<char>,
        method: Seq<char>,
        path: Seq<char>,
        duration_nanos: u64,
    ) -> bool {
        &&& self.requests(status, method, path) == before.requests(status, method, path) + 1
        &&& self.observations(status, method, path) == before.observations(
            status,
            method,
            path,
        ).push(duration_nanos)
        &&& forall|s: Seq<char>, m: Seq<char>, p: Seq<char>|
            #![trigger self.requests(s, m, p)]
            #![trigger self.observations(s, m, p)]
            series_key(s, m, p) != series_key(status, method, path) ==> self.requests(s, m, p)
                == before.requests(s, m, p) && self.observations(s, m, p) == before.observations(
                s,
                m,
                p,
            )
    }

    /// Records one finished request: one increment of the counter and one
    /// observation of the histogram, both in the series of the labels
    /// `(status in decimal, method, path)`. No other series changes. The
    /// collectors are the two families of the proxy as before, and a scrape
    /// gathers from them and from nothing else.
    pub fn record_request(&mut self, status: u16, method: &str, path: &str, duration_nanos: u64)
        ensures
            final(self).recorded_once_since(
                *old(self),
                decimal_digits(status as nat),
                method@,
                path@,
                duration_nanos,
            ),
            final(self).counter_family() == old(self).counter_family(),
            final(self).histogram_family() == old(self).histogram_family(),
            final(self).bucket_bounds() == old(self).bucket_bounds(),
            final(self).has_proxy_families(),
            final(self).gathers_own(),
    {
        proof {
            use_type_invariant(&*self);
        }
        let status_label = decimal(status);
        increment(&mut self.http_requests_total, status_label.as_str(), method, path);
        observe(
            &mut self.http_request_duration_seconds,
            status_label.as_str(),
            method,
            path,
            duration_nanos,
        );
    }
}

/// The names, help texts and labels of the two families are such that
/// Prometheus accepts their descriptors, and no label is the bucket label.
proof fn lemma_names_are_describable()
    ensures
        describable(
            "http_requests_total"@,
            "Total number of HTTP requests"@,
            "status"@,
            "method"@,
            "path"@,
        ),
        describable(
            "http_request_duration_seconds"@,
            "HTTP request duration in seconds"@,
            "status"@,
            "method"@,
            "path"@,
        ),
        "status"@ != bucket_label(),
        "method"@ != bucket_label(),
        "path"@ != bucket_label(),
{
    reveal_strlit("http_requests_total");
    reveal_strlit("Total number of HTTP requests");
    reveal_strlit("http_request_duration_seconds");
    reveal_strlit("HTTP request duration in seconds");
    reveal_strlit("status");
    reveal_strlit("method");
    reveal_strlit("path");
}

/// Label values that run together to the same text have the same key, so
/// they are counted and observed in one series, whatever the three values
/// are one by one.
pub proof fn lemma_series_share_by_key(
    metrics: Metrics,
    status: Seq<char>,
    method: Seq<char>,
    path: Seq<char>,
    other_status: Seq<char>,
    other_method: Seq<char>,
    other_path: Seq<char>,
)
    requires
        status + method + path == other_status + other_method + other_path,
    ensures
        series_key(status, method, path) == series_key(other_status, other_method, other_path),
        metrics.requests(status, method, path) == metrics.requests(
            other_status,
            other_method,
            other_path,
        ),
        metrics.observations(status, method, path) == metrics.observations(
            other_status,
            other_method,
            other_path,
        ),
{
}

/// A recorded request is the last observation of its series, and it adds
/// one to the durations within a bound exactly when it is itself no longer
/// than the bound: a request of 30 ms counts from the bound of 50 ms up.
pub proof fn lemma_recorded_duration_counts_from_its_bound(
    after: Metrics,
    before: Metrics,
    status: Seq<char>,
    method: Seq<char>,
    path: Seq<char>,
    duration_nanos: u64,
    bound_micros: u64,
)
    requires
        after.recorded_once_since(before, status, method, path, duration_nanos),
    ensures
        after.observations(status, method, path).last() == duration_nanos,
        after.observations(status, method, path).len() == before.observations(
            status,
            method,
            path,
        ).len() + 1,
        within_bound(after.observations(status, method, path), bound_micros) == within_bound(
            before.observations(status, method, path),
            bound_micros,
        ) + if duration_nanos <= bound_micros * 1000 {
            1nat
        } else {
            0nat
        },
{
    before.observations(status, method, path).lemma_filter_push(
        duration_nanos,
        |nanos: u64| nanos <= bound_micros * 1000,
    );
}

} // verus!
