//! The calculation templates: what they are made of, the columns they read and write, and the
//! decisions they take for each row.
use vstd::prelude::*;
use crate::value::{Value, ValueType, IntType};
use crate::numeric::EvalexprFloat;
use crate::ffi::{Error, ErrorModel};
use crate::value::VModel;
use crate::error::EModel;
use crate::error_display::text_holds;
use crate::text::{push_str, usize_to_string, decimal_digits};

verus! {

/// `field` followed by `suffix`.
fn suffixed(field: &str, suffix: &str) -> (r: String)
    ensures
        r@ == field@ + suffix@,
{
    let mut r = field.to_owned();
    push_str(&mut r, suffix);
    r
}

/// The column of the bucket of a field.
pub fn to_bucket_field_name(field_name: &str) -> (r: String)
    ensures
        r@ == field_name@ + "bucket"@,
{
    suffixed(field_name, "bucket")
}

/// The column of the bucket range of a field.
pub fn to_bucket_range_field_name(field_name: &str) -> (r: String)
    ensures
        r@ == field_name@ + "bucketRange"@,
{
    suffixed(field_name, "bucketRange")
}

/// The column of the regression coefficient of a field.
pub fn to_coeficient(field_name: &str) -> (r: String)
    ensures
        r@ == field_name@ + "coefficient"@,
{
    suffixed(field_name, "coefficient")
}

/// The column of the p-value of a field.
pub fn to_pvalue(field_name: &str) -> (r: String)
    ensures
        r@ == field_name@ + "pvalue"@,
{
    suffixed(field_name, "pvalue")
}

/// The column of the R squared of a field.
pub fn to_rsquared(field_name: &str) -> (r: String)
    ensures
        r@ == field_name@ + "rsquared"@,
{
    suffixed(field_name, "rsquared")
}

/// The column of the adjusted R squared of a field.
pub fn to_adjusted_rsquared(field_name: &str) -> (r: String)
    ensures
        r@ == field_name@ + "adjustedrsquared"@,
{
    suffixed(field_name, "adjustedrsquared")
}

/// The column that tells whether a field has data.
pub fn to_has_data_output_field_name(field_name: &str) -> (r: String)
    ensures
        r@ == field_name@ + "hasdata"@,
{
    suffixed(field_name, "hasdata")
}

/// The column of the rolling average of a field.
pub fn to_avg_output_field_name(field_name: &str) -> (r: String)
    ensures
        r@ == field_name@ + "avg"@,
{
    suffixed(field_name, "avg")
}

/// The column of the rolling standard deviation of a field.
pub fn to_std_dev_output_field_name(field_name: &str) -> (r: String)
    ensures
        r@ == field_name@ + "stdev"@,
{
    suffixed(field_name, "stdev")
}

/// The column of the rolling z-score of a field.
pub fn to_zscore_output_field_name(field_name: &str) -> (r: String)
    ensures
        r@ == field_name@ + "zscore"@,
{
    suffixed(field_name, "zscore")
}

/// Owned copies of the given names.
fn owned_names(names: &Vec<&str>) -> (r: Vec<String>)
    ensures
        r@.len() == names@.len(),
        forall|i: int| 0 <= i < names@.len() ==> #[trigger] r@[i]@ == names@[i]@,
{
    let mut r: Vec<String> = Vec::new();
    let mut i: usize = 0;
    while i < names.len()
        invariant
            i <= names@.len(),
            r@.len() == i,
            forall|j: int| 0 <= j < i ==> #[trigger] r@[j]@ == names@[j]@,
        decreases names@.len() - i,
    {
        r.push(names[i].to_owned());
        i += 1;
    }
    r
}

/// Copies of the given strings.
fn copy_names(names: &Vec<String>) -> (r: Vec<String>)
    ensures
        r@.len() == names@.len(),
        forall|i: int| 0 <= i < names@.len() ==> #[trigger] r@[i]@ == names@[i]@,
{
    let mut r: Vec<String> = Vec::new();
    let mut i: usize = 0;
    while i < names.len()
        invariant
            i <= names@.len(),
            r@.len() == i,
            forall|j: int| 0 <= j < i ==> #[trigger] r@[j]@ == names@[j]@,
        decreases names@.len() - i,
    {
        r.push(names[i].clone());
        i += 1;
    }
    r
}

/// Splits the values of a field into buckets: each distinct value gets the number of its bucket.
pub struct BucketData {
    fields_to_bucket: Vec<String>,
    no_buckets: u8,
}

impl BucketData {
    #[verifier::type_invariant]
    spec fn inv(self) -> bool {
        self.no_buckets > 0
    }

    /// The fields whose values are split into buckets.
    pub closed spec fn spec_fields(&self) -> Seq<Seq<char>> {
        self.fields_to_bucket@.map_values(|f: String| f@)
    }

    /// The number of buckets.
    pub closed spec fn spec_no_buckets(&self) -> u8 {
        self.no_buckets
    }

    /// Creates the template; a number of buckets of zero is taken as one.
    pub fn new(fields_to_bucket: Vec<&str>, no_buckets: u8) -> (r: BucketData)
        ensures
            r.spec_fields() == fields_to_bucket@.map_values(|f: &str| f@),
            r.spec_no_buckets() == (if no_buckets == 0 { 1 } else { no_buckets }),
    {
        let no_buckets = if no_buckets == 0 { 1 } else { no_buckets };
        let fields = owned_names(&fields_to_bucket);
        let r = BucketData { fields_to_bucket: fields, no_buckets };
        assert(r.spec_fields() =~= fields_to_bucket@.map_values(|f: &str| f@));
        r
    }

    /// The columns the template writes: for each field its bucket (an integer) and its bucket range (a string).
    pub fn schema(&self) -> (r: Vec<(String, ValueType)>)
        ensures
            r@.len() == 2 * self.spec_fields().len(),
            forall|i: int| 0 <= i < self.spec_fields().len() ==>
                (#[trigger] r@[2 * i]).0@ == self.spec_fields()[i] + "bucket"@ && r@[2 * i].1 == ValueType::Int
                && r@[2 * i + 1].0@ == self.spec_fields()[i] + "bucketRange"@ && r@[2 * i + 1].1 == ValueType::String,
    {
        let mut r: Vec<(String, ValueType)> = Vec::new();
        let mut i: usize = 0;
        while i < self.fields_to_bucket.len()
            invariant
                i <= self.fields_to_bucket@.len(),
                r@.len() == 2 * i,
                forall|j: int| 0 <= j < i ==>
                    (#[trigger] r@[2 * j]).0@ == self.fields_to_bucket@[j]@ + "bucket"@ && r@[2 * j].1 == ValueType::Int
                    && r@[2 * j + 1].0@ == self.fields_to_bucket@[j]@ + "bucketRange"@ && r@[2 * j + 1].1 == ValueType::String,
            decreases self.fields_to_bucket@.len() - i,
        {
            let field = self.fields_to_bucket[i].as_str();
            r.push((to_bucket_field_name(field), ValueType::Int));
            r.push((to_bucket_range_field_name(field), ValueType::String));
            i += 1;
        }
        r
    }

    /// The fields the template reads.
    pub fn dependencies(&self) -> (r: Vec<String>)
        ensures
            r@.map_values(|f: String| f@) == self.spec_fields(),
    {
        let r = copy_names(&self.fields_to_bucket);
        assert(r@.map_values(|f: String| f@) =~= self.spec_fields());
        r
    }

    /// The bucket number of the value at `position` among `distinct_values` sorted distinct values:
    /// the buckets split the positions evenly, and the highest values get bucket 1.
    pub fn bucket_number(&self, position: usize, distinct_values: usize) -> (r: IntType)
        requires
            position < distinct_values,
        ensures
            r == self.spec_no_buckets() - (position * self.spec_no_buckets()) / (distinct_values as int),
            1 <= r <= self.spec_no_buckets(),
    {
        proof { use_type_invariant(self); }
        let buckets = self.no_buckets as u128;
        let p = position as u128;
        let d = distinct_values as u128;
        proof {
            assert(p * buckets < d * buckets) by (nonlinear_arith)
                requires p < d, buckets > 0;
            assert(d * buckets <= 0x1_0000_0000_0000_0000u128 * 256) by (nonlinear_arith)
                requires d < 0x1_0000_0000_0000_0000u128, buckets < 256;
        }
        let product = p * buckets;
        let bucket = product / d;
        proof {
            assert(bucket < buckets) by (nonlinear_arith)
                requires product < d * buckets, bucket == product / d, d > 0;
        }
        (buckets - bucket) as IntType
    }
}

/// Watches a value against a lower and an upper band.
pub struct ChannelMonitor {
    lower_band_field_name: String,
    upper_band_field_name: String,
    value_field_name: String,
    output_field_name: String,
    within_bounds_field_name: String,
    left_above_field_name: String,
    left_below_field_name: String,
    re_entered_above_field_name: String,
    re_entered_below_field_name: String,
}

/// What the channel monitor finds of a value in one row.
pub struct ChannelFlags {
    /// The value lies within the bands.
    pub within_bounds: bool,
    /// The value lies above the upper band.
    pub left_above: bool,
    /// The value lies below the lower band.
    pub left_below: bool,
    /// The value is within the bands again, after it had left them upwards.
    pub re_entered_above: bool,
    /// The value is within the bands again, after it had left them downwards.
    pub re_entered_below: bool,
}

impl ChannelMonitor {
    /// The column of the lower band.
    pub closed spec fn spec_lower_band(&self) -> Seq<char> { self.lower_band_field_name@ }
    /// The column of the upper band.
    pub closed spec fn spec_upper_band(&self) -> Seq<char> { self.upper_band_field_name@ }
    /// The column of the value.
    pub closed spec fn spec_value(&self) -> Seq<char> { self.value_field_name@ }
    /// The prefix of the columns the monitor writes.
    pub closed spec fn spec_output(&self) -> Seq<char> { self.output_field_name@ }
    /// The column that tells whether the value is within the bands.
    pub closed spec fn spec_within_bounds(&self) -> Seq<char> { self.within_bounds_field_name@ }
    /// The column that tells whether the value left the bands upwards.
    pub closed spec fn spec_left_above(&self) -> Seq<char> { self.left_above_field_name@ }
    /// The column that tells whether the value left the bands downwards.
    pub closed spec fn spec_left_below(&self) -> Seq<char> { self.left_below_field_name@ }
    /// The column that tells whether the value re-entered the bands from above.
    pub closed spec fn spec_re_entered_above(&self) -> Seq<char> { self.re_entered_above_field_name@ }
    /// The column that tells whether the value re-entered the bands from below.
    pub closed spec fn spec_re_entered_below(&self) -> Seq<char> { self.re_entered_below_field_name@ }

    /// Creates the monitor; the columns it writes are the output name followed by `_within_bounds`,
    /// `_left_above`, `_left_below`, `_re_entered_above` and `_re_entered_below`.
    pub fn new(lower_band_field_name: &str, upper_band_field_name: &str, value_field_name: &str, output_field_name: &str) -> (r: ChannelMonitor)
        ensures
            r.spec_lower_band() == lower_band_field_name@,
            r.spec_upper_band() == upper_band_field_name@,
            r.spec_value() == value_field_name@,
            r.spec_output() == output_field_name@,
            r.spec_within_bounds() == output_field_name@ + "_within_bounds"@,
            r.spec_left_above() == output_field_name@ + "_left_above"@,
            r.spec_left_below() == output_field_name@ + "_left_below"@,
            r.spec_re_entered_above() == output_field_name@ + "_re_entered_above"@,
            r.spec_re_entered_below() == output_field_name@ + "_re_entered_below"@,
    {
        ChannelMonitor {
            lower_band_field_name: lower_band_field_name.to_owned(),
            upper_band_field_name: upper_band_field_name.to_owned(),
            value_field_name: value_field_name.to_owned(),
            within_bounds_field_name: suffixed(output_field_name, "_within_bounds"),
            left_above_field_name: suffixed(output_field_name, "_left_above"),
            left_below_field_name: suffixed(output_field_name, "_left_below"),
            re_entered_above_field_name: suffixed(output_field_name, "_re_entered_above"),
            re_entered_below_field_name: suffixed(output_field_name, "_re_entered_below"),
            output_field_name: output_field_name.to_owned(),
        }
    }

    /// The columns the monitor writes, all booleans.
    pub fn schema(&self) -> (r: Vec<(String, ValueType)>)
        ensures
            r@.len() == 5,
            r@[0].0@ == self.spec_within_bounds(),
            r@[1].0@ == self.spec_left_above(),
            r@[2].0@ == self.spec_left_below(),
            r@[3].0@ == self.spec_re_entered_above(),
            r@[4].0@ == self.spec_re_entered_below(),
            forall|i: int| 0 <= i < 5 ==> (#[trigger] r@[i]).1 == ValueType::Boolean,
    {
        let r = vec![
            (self.within_bounds_field_name.clone(), ValueType::Boolean),
            (self.left_above_field_name.clone(), ValueType::Boolean),
            (self.left_below_field_name.clone(), ValueType::Boolean),
            (self.re_entered_above_field_name.clone(), ValueType::Boolean),
            (self.re_entered_below_field_name.clone(), ValueType::Boolean),
        ];
        r
    }

    /// The columns the monitor reads: the lower band, the upper band and the value.
    pub fn dependencies(&self) -> (r: Vec<String>)
        ensures
            r@.len() == 3,
            r@[0]@ == self.spec_lower_band(),
            r@[1]@ == self.spec_upper_band(),
            r@[2]@ == self.spec_value(),
    {
        vec![self.lower_band_field_name.clone(), self.upper_band_field_name.clone(), self.value_field_name.clone()]
    }

    /// What the monitor finds of a value in a row, given how the value compares with the bands and
    /// whether it had left the bands upwards or downwards in the row before (`None` if unknown).
    pub fn flags(value_ge_lower: bool, value_le_upper: bool, value_gt_upper: bool, value_lt_lower: bool,
        previous_left_above: Option<bool>, previous_left_below: Option<bool>) -> (r: ChannelFlags)
        ensures
            r.within_bounds == (value_ge_lower && value_le_upper),
            r.left_above == value_gt_upper,
            r.left_below == value_lt_lower,
            r.re_entered_above == (r.within_bounds && previous_left_above == Some(true)),
            r.re_entered_below == (r.within_bounds && previous_left_below == Some(true)),
    {
        let within_bounds = value_ge_lower && value_le_upper;
        let left_above = match previous_left_above { Some(b) => b, None => false };
        let left_below = match previous_left_below { Some(b) => b, None => false };
        ChannelFlags {
            within_bounds,
            left_above: value_gt_upper,
            left_below: value_lt_lower,
            re_entered_above: within_bounds && left_above,
            re_entered_below: within_bounds && left_below,
        }
    }
}

/// A rolling z-score of fields over a window of rows.
pub struct RollingZScore {
    fields_to_zscore: Vec<String>,
    window_size: u32,
}

impl RollingZScore {
    /// The fields whose z-score is computed.
    pub closed spec fn spec_fields(&self) -> Seq<Seq<char>> {
        self.fields_to_zscore@.map_values(|f: String| f@)
    }

    /// The number of rows of the window.
    pub closed spec fn spec_window_size(&self) -> u32 {
        self.window_size
    }

    /// The window holds at least one row.
    #[verifier::type_invariant]
    spec fn window_not_empty(&self) -> bool {
        self.window_size >= 1
    }

    /// Creates the template; a window size of zero is taken as one.
    pub fn new(fields_to_zscore: Vec<&str>, window_size: u32) -> (r: Self)
        ensures
            r.spec_fields() == fields_to_zscore@.map_values(|f: &str| f@),
            r.spec_window_size() == (if window_size == 0 { 1 } else { window_size }),
    {
        let window_size = if window_size == 0 { 1 } else { window_size };
        let fields = owned_names(&fields_to_zscore);
        let r = RollingZScore { fields_to_zscore: fields, window_size };
        assert(r.spec_fields() =~= fields_to_zscore@.map_values(|f: &str| f@));
        r
    }

    /// The columns the template writes: for each field its average, standard deviation and z-score
    /// (floats), and whether it has data (a boolean).
    pub fn schema(&self) -> (r: Vec<(String, ValueType)>)
        ensures
            r@.len() == 4 * self.spec_fields().len(),
            forall|i: int| 0 <= i < self.spec_fields().len() ==>
                (#[trigger] r@[4 * i]).0@ == self.spec_fields()[i] + "avg"@ && r@[4 * i].1 == ValueType::Float
                && r@[4 * i + 1].0@ == self.spec_fields()[i] + "stdev"@ && r@[4 * i + 1].1 == ValueType::Float
                && r@[4 * i + 2].0@ == self.spec_fields()[i] + "hasdata"@ && r@[4 * i + 2].1 == ValueType::Boolean
                && r@[4 * i + 3].0@ == self.spec_fields()[i] + "zscore"@ && r@[4 * i + 3].1 == ValueType::Float,
    {
        let mut r: Vec<(String, ValueType)> = Vec::new();
        let mut i: usize = 0;
        while i < self.fields_to_zscore.len()
            invariant
                i <= self.fields_to_zscore@.len(),
                r@.len() == 4 * i,
                forall|j: int| 0 <= j < i ==>
                    (#[trigger] r@[4 * j]).0@ == self.fields_to_zscore@[j]@ + "avg"@ && r@[4 * j].1 == ValueType::Float
                    && r@[4 * j + 1].0@ == self.fields_to_zscore@[j]@ + "stdev"@ && r@[4 * j + 1].1 == ValueType::Float
                    && r@[4 * j + 2].0@ == self.fields_to_zscore@[j]@ + "hasdata"@ && r@[4 * j + 2].1 == ValueType::Boolean
                    && r@[4 * j + 3].0@ == self.fields_to_zscore@[j]@ + "zscore"@ && r@[4 * j + 3].1 == ValueType::Float,
            decreases self.fields_to_zscore@.len() - i,
        {
            let field = self.fields_to_zscore[i].as_str();
            r.push((to_avg_output_field_name(field), ValueType::Float));
            r.push((to_std_dev_output_field_name(field), ValueType::Float));
            r.push((to_has_data_output_field_name(field), ValueType::Boolean));
            r.push((to_zscore_output_field_name(field), ValueType::Float));
            i += 1;
        }
        r
    }

    /// The fields the template reads.
    pub fn dependencies(&self) -> (r: Vec<String>)
        ensures
            r@.map_values(|f: String| f@) == self.spec_fields(),
    {
        let r = copy_names(&self.fields_to_zscore);
        assert(r@.map_values(|f: String| f@) =~= self.spec_fields());
        r
    }
}

/// The average, standard deviation and z-score of a full rolling window.
#[derive(Clone, Copy, Debug)]
pub struct ZScoreStats<F> {
    pub avg: F,
    pub stdev: F,
    pub zscore: F,
}

/// The statistics of a full window of `size` values whose sum is `sum` and sum of squares
/// `sum_squares`, for its newest value `value`: the average `sum / size`, the standard deviation
/// `sqrt(sum_squares / size - avg * avg)`, and the z-score `(value - avg) / stdev`.
pub open spec fn zscore_stats<F: EvalexprFloat>(sum: F, sum_squares: F, size: u32, value: F) -> ZScoreStats<F> {
    let count = F::spec_from_int(size as i64);
    let avg = sum.spec_div(count);
    let stdev = sum_squares.spec_div(count).spec_sub(avg.spec_mul(avg)).spec_sqrt();
    ZScoreStats { avg, stdev, zscore: value.spec_sub(avg).spec_div(stdev) }
}

/// The running sum after a window drops `dropped` (where it drops one) and adds `added`.
pub open spec fn running_sum<F: EvalexprFloat>(sum: F, dropped: Option<F>, added: F) -> F {
    match dropped {
        Some(d) => sum.spec_sub(d).spec_add(added),
        None => sum.spec_add(added),
    }
}

/// The running sum of squares after a window drops `dropped` (where it drops one) and adds `added`.
pub open spec fn running_sum_squares<F: EvalexprFloat>(sum_squares: F, dropped: Option<F>, added: F) -> F {
    match dropped {
        Some(d) => sum_squares.spec_sub(d.spec_mul(d)).spec_add(added.spec_mul(added)),
        None => sum_squares.spec_add(added.spec_mul(added)),
    }
}

/// The last values seen by a rolling z-score, at most `size` of them, with their running sum and
/// sum of squares.
pub struct ZScoreWindow<F> {
    values: Vec<F>,
    sum: F,
    sum_squares: F,
    size: u32,
}

impl<F: EvalexprFloat> ZScoreWindow<F> {
    /// The values in the window, oldest first.
    pub closed spec fn spec_values(&self) -> Seq<F> {
        self.values@
    }

    /// The running sum of the values.
    pub closed spec fn spec_sum(&self) -> F {
        self.sum
    }

    /// The running sum of the squares of the values.
    pub closed spec fn spec_sum_squares(&self) -> F {
        self.sum_squares
    }

    /// The number of values a full window holds.
    pub closed spec fn spec_size(&self) -> u32 {
        self.size
    }

    /// The window holds at least one value when full, and never more than that.
    pub closed spec fn well_formed(&self) -> bool {
        1 <= self.size && self.values@.len() <= self.size
    }

    /// An empty window of the given size; its sums are the float zero.
    pub fn new(size: u32) -> (r: Self)
        requires
            size >= 1,
        ensures
            r.well_formed(),
            r.spec_values() == Seq::<F>::empty(),
            r.spec_sum() == F::spec_from_int(0),
            r.spec_sum_squares() == F::spec_from_int(0),
            r.spec_size() == size,
    {
        ZScoreWindow { values: Vec::new(), sum: F::from_int(0), sum_squares: F::from_int(0), size }
    }

    /// Whether the window holds `size` values.
    pub fn is_full(&self) -> (r: bool)
        requires
            self.well_formed(),
        ensures
            r == (self.spec_values().len() == self.spec_size()),
    {
        self.values.len() == self.size as usize
    }

    /// Adds a value, dropping the oldest one where the window is full, and updates the running
    /// sums. Where the window is full afterwards, returns its statistics for the value.
    pub fn push(&mut self, value: F) -> (r: Option<ZScoreStats<F>>)
        requires
            old(self).well_formed(),
        ensures
            final(self).well_formed(),
            final(self).spec_size() == old(self).spec_size(),
            final(self).spec_values() == (if old(self).spec_values().len() == old(self).spec_size() {
                old(self).spec_values().drop_first()
            } else {
                old(self).spec_values()
            }).push(value),
            ({
                let dropped = if old(self).spec_values().len() == old(self).spec_size() {
                    Some(old(self).spec_values()[0])
                } else {
                    None
                };
                &&& final(self).spec_sum() == running_sum(old(self).spec_sum(), dropped, value)
                &&& final(self).spec_sum_squares() == running_sum_squares(old(self).spec_sum_squares(), dropped, value)
            }),
            r is Some <==> final(self).spec_values().len() == final(self).spec_size(),
            r matches Some(st) ==> st == zscore_stats(final(self).spec_sum(), final(self).spec_sum_squares(),
                final(self).spec_size(), value),
    {
        if self.values.len() == self.size as usize {
            let oldest = self.values.remove(0);
            self.sum = self.sum.sub(oldest);
            self.sum_squares = self.sum_squares.sub(oldest.mul(oldest));
        }
        self.values.push(value);
        self.sum = self.sum.add(value);
        self.sum_squares = self.sum_squares.add(value.mul(value));
        if self.values.len() == self.size as usize {
            let count = F::from_int(self.size as i64);
            let avg = self.sum.div(count);
            let variance = self.sum_squares.div(count).sub(avg.mul(avg));
            let stdev = variance.sqrt();
            let zscore = value.sub(avg).div(stdev);
            Some(ZScoreStats { avg, stdev, zscore })
        } else {
            None
        }
    }
}

/// The columns of one z-scored field, by row: where its input is read, and where its z-score,
/// standard deviation, average and has-data flag are written.
pub struct ZScoreColumns {
    pub input: Vec<usize>,
    pub zscore: Vec<usize>,
    pub stdev: Vec<usize>,
    pub avg: Vec<usize>,
    pub has_data: Vec<usize>,
}

/// What a rolling z-score writes into a cell: a computed statistic (this float), the has-data flag
/// (`true`), or the empty value.
pub ghost enum CellWrite<F> {
    Stat(F),
    Flag,
    Blank,
}

/// Why a rolling z-score stops: an error with the given model, or an input that is neither a
/// number nor empty (reported with the message of the evaluation error that says so).
pub ghost enum ZScoreStop<F> {
    Failed(ErrorModel),
    NotAFloat(VModel<F>),
}

/// What a rolling z-score knows between two rows: the cells written so far, in order, the values
/// in its window with their running sum and sum of squares, and whether the current field has had
/// a value (and the last one, which a row without a value repeats).
pub ghost struct ZScoreState<F> {
    pub writes: Seq<(int, CellWrite<F>)>,
    pub window: Seq<F>,
    pub sum: F,
    pub sum_squares: F,
    pub has_last: bool,
    pub last: F,
}

/// The state of a rolling z-score before its first row: nothing written, an empty window with
/// zero sums.
pub open spec fn zscore_initial<F: EvalexprFloat>() -> ZScoreState<F> {
    ZScoreState {
        writes: Seq::empty(),
        window: Seq::empty(),
        sum: F::spec_from_int(0),
        sum_squares: F::spec_from_int(0),
        has_last: false,
        last: F::spec_from_int(0),
    }
}

/// What was last written into cell `c`, if anything.
pub open spec fn last_write<F>(writes: Seq<(int, CellWrite<F>)>, c: int) -> Option<CellWrite<F>>
    decreases writes.len(),
{
    if writes.len() == 0 {
        None
    } else if writes.last().0 == c {
        Some(writes.last().1)
    } else {
        last_write(writes.drop_last(), c)
    }
}

/// A cell holds what was last written into it, or the empty value.
pub open spec fn cell_agrees<F>(v: Value<F>, w: Option<CellWrite<F>>) -> bool {
    match w {
        Some(CellWrite::Stat(f)) => v == Value::<F>::Float(f),
        Some(CellWrite::Flag) => v == Value::<F>::Boolean(true),
        _ => v is Empty,
    }
}

/// The columns named by a list of cell writes, in order.
pub open spec fn written_columns<F>(writes: Seq<(int, CellWrite<F>)>) -> Seq<usize> {
    writes.map_values(|w: (int, CellWrite<F>)| w.0 as usize)
}

/// The cells of `out` hold what the writes put there.
pub open spec fn cells_agree<F>(out: Seq<Value<F>>, writes: Seq<(int, CellWrite<F>)>) -> bool {
    forall|c: int| 0 <= c < out.len() ==> cell_agrees(#[trigger] out[c], last_write(writes, c))
}

/// The number that the input of row `i` holds, as a float (an integer converted by `from_int`),
/// `None` where it is empty, or the reason it cannot be read.
pub open spec fn zscore_read<F: EvalexprFloat>(row: Seq<Value<F>>, index: Seq<usize>, i: int) -> Result<Option<F>, ZScoreStop<F>> {
    if i >= index.len() {
        Err(ZScoreStop::Failed(missing_index_error(i as usize)))
    } else if index[i] >= row.len() {
        Err(ZScoreStop::Failed(missing_column_error(index[i])))
    } else {
        match row[index[i] as int] {
            Value::Float(f) => Ok(Some(f)),
            Value::Int(n) => Ok(Some(F::spec_from_int(n))),
            Value::Empty => Ok(None),
            v => Err(ZScoreStop::NotAFloat(v@)),
        }
    }
}

/// The writes after writing `w` into the cell that position `i` of `index` names, in a row of `n`
/// cells.
pub open spec fn indirect_write<F>(writes: Seq<(int, CellWrite<F>)>, n: int, index: Seq<usize>, i: int, w: CellWrite<F>)
    -> Result<Seq<(int, CellWrite<F>)>, ZScoreStop<F>>
{
    if i >= index.len() {
        Err(ZScoreStop::Failed(missing_index_error(i as usize)))
    } else if index[i] >= n {
        Err(ZScoreStop::Failed(missing_column_error(index[i])))
    } else {
        Ok(writes.push((index[i] as int, w)))
    }
}

/// The writes of one row's z-score, standard deviation, average and has-data flag: the
/// statistics where there are some, else the empty value.
pub open spec fn zscore_cells<F>(writes: Seq<(int, CellWrite<F>)>, n: int, cols: ZScoreColumns, i: int,
    stats: Option<ZScoreStats<F>>) -> Result<Seq<(int, CellWrite<F>)>, ZScoreStop<F>>
{
    let (z, d, a, f) = match stats {
        Some(st) => (CellWrite::Stat(st.zscore), CellWrite::Stat(st.stdev), CellWrite::Stat(st.avg), CellWrite::Flag),
        None => (CellWrite::Blank, CellWrite::Blank, CellWrite::Blank, CellWrite::Blank),
    };
    match indirect_write::<F>(writes, n, cols.zscore@, i, z) {
        Err(e) => Err(e),
        Ok(w1) => match indirect_write::<F>(w1, n, cols.stdev@, i, d) {
            Err(e) => Err(e),
            Ok(w2) => match indirect_write::<F>(w2, n, cols.avg@, i, a) {
                Err(e) => Err(e),
                Ok(w3) => indirect_write::<F>(w3, n, cols.has_data@, i, f),
            },
        },
    }
}

/// One row of a rolling z-score: a row with a value, or after one in the same field (whose value
/// it then repeats), adds it to the window and, where the window is full, writes the statistics
/// of the window for it; a row before any value of the field writes empty cells where the window
/// is full.
pub open spec fn zscore_row<F: EvalexprFloat>(row: Seq<Value<F>>, cols: ZScoreColumns, size: u32, i: int, st: ZScoreState<F>)
    -> Result<ZScoreState<F>, ZScoreStop<F>>
{
    match zscore_read(row, cols.input@, i) {
        Err(e) => Err(e),
        Ok(read) => if read is Some || st.has_last {
            let value = match read { Some(v) => v, None => st.last };
            let full = st.window.len() == size;
            let dropped = if full { Some(st.window[0]) } else { None };
            let window = (if full { st.window.drop_first() } else { st.window }).push(value);
            let sum = running_sum(st.sum, dropped, value);
            let sum_squares = running_sum_squares(st.sum_squares, dropped, value);
            let next = ZScoreState { writes: st.writes, window, sum, sum_squares, has_last: true, last: value };
            if window.len() == size {
                match zscore_cells::<F>(st.writes, row.len() as int, cols, i, Some(zscore_stats(sum, sum_squares, size, value))) {
                    Err(e) => Err(e),
                    Ok(w) => Ok(ZScoreState { writes: w, ..next }),
                }
            } else {
                Ok(next)
            }
        } else if st.window.len() == size {
            match zscore_cells::<F>(st.writes, row.len() as int, cols, i, None) {
                Err(e) => Err(e),
                Ok(w) => Ok(ZScoreState { writes: w, ..st }),
            }
        } else {
            Ok(st)
        },
    }
}

/// Rows `start` up to `i` of one field.
pub open spec fn zscore_rows<F: EvalexprFloat>(row: Seq<Value<F>>, cols: ZScoreColumns, size: u32, start: int, i: int, st: ZScoreState<F>)
    -> Result<ZScoreState<F>, ZScoreStop<F>>
    decreases i - start,
{
    if i <= start {
        Ok(st)
    } else {
        match zscore_rows(row, cols, size, start, i - 1, st) {
            Err(e) => Err(e),
            Ok(s) => zscore_row(row, cols, size, i - 1, s),
        }
    }
}

/// The first `k` fields, each over rows `start` up to `end`; the window carries over from one
/// field to the next, the last value of a field does not.
pub open spec fn zscore_fields<F: EvalexprFloat>(row: Seq<Value<F>>, columns: Seq<ZScoreColumns>, size: u32, start: int, end: int,
    k: int, st: ZScoreState<F>) -> Result<ZScoreState<F>, ZScoreStop<F>>
    decreases k,
{
    if k <= 0 {
        Ok(st)
    } else {
        match zscore_fields(row, columns, size, start, end, k - 1, st) {
            Err(e) => Err(e),
            Ok(s) => zscore_rows(row, columns[k - 1], size, start, end, ZScoreState { has_last: false, ..s }),
        }
    }
}

/// The first row a rolling z-score revisits: `window_size` rows before the cycle's epoch.
pub open spec fn zscore_start(cycle_epoch: usize, window_size: u32) -> int {
    if cycle_epoch >= window_size { cycle_epoch - window_size } else { 0 }
}

/// A result of a rolling z-score agrees with the outcome that the model gives.
pub open spec fn zscore_result<F: EvalexprFloat>(n: int, outcome: Result<ZScoreState<F>, ZScoreStop<F>>,
    r: Result<(Vec<Value<F>>, Vec<usize>), Error>) -> bool
{
    match outcome {
        Ok(st) => r matches Ok((out, dirty)) && out@.len() == n && dirty@ == written_columns(st.writes)
            && cells_agree(out@, st.writes),
        Err(ZScoreStop::Failed(m)) => r matches Err(e) && e@ == m,
        Err(ZScoreStop::NotAFloat(v)) => r matches Err(e)
            && (e@ matches ErrorModel::CustomError(m)
                && text_holds(crate::error_display::error_text(EModel::<F>::ExpectedFloat { actual: v }), m)),
    }
}

proof fn lemma_last_write_push<F>(writes: Seq<(int, CellWrite<F>)>, w: (int, CellWrite<F>), c: int)
    ensures
        last_write(writes.push(w), c) == (if w.0 == c { Some(w.1) } else { last_write(writes, c) }),
{
    assert(writes.push(w).drop_last() =~= writes);
}

proof fn lemma_rows_err_stays<F: EvalexprFloat>(row: Seq<Value<F>>, cols: ZScoreColumns, size: u32, start: int, i: int, j: int,
    st: ZScoreState<F>)
    requires
        i <= j,
        zscore_rows(row, cols, size, start, i, st) is Err,
    ensures
        zscore_rows(row, cols, size, start, j, st) == zscore_rows(row, cols, size, start, i, st),
    decreases j - i,
{
    if i < j {
        lemma_rows_err_stays(row, cols, size, start, i, j - 1, st);
    }
}

proof fn lemma_fields_err_stays<F: EvalexprFloat>(row: Seq<Value<F>>, columns: Seq<ZScoreColumns>, size: u32, start: int, end: int,
    k: int, j: int, st: ZScoreState<F>)
    requires
        k <= j,
        zscore_fields(row, columns, size, start, end, k, st) is Err,
    ensures
        zscore_fields(row, columns, size, start, end, j, st) == zscore_fields(row, columns, size, start, end, k, st),
    decreases j - k,
{
    if k < j {
        lemma_fields_err_stays(row, columns, size, start, end, k, j - 1, st);
    }
}

/// Writes `value` into the cell that position `i` of `index` names, and records its column.
fn write_cell<F: EvalexprFloat>(out: &mut Vec<Value<F>>, dirty: &mut Vec<usize>, index: &Vec<usize>, i: usize,
    value: Value<F>, Ghost(w): Ghost<CellWrite<F>>, Ghost(writes): Ghost<Seq<(int, CellWrite<F>)>>) -> (r: Result<(), Error>)
    requires
        cell_agrees(value, Some(w)),
        old(dirty)@ == written_columns(writes),
        cells_agree(old(out)@, writes),
    ensures
        final(out)@.len() == old(out)@.len(),
        match indirect_write::<F>(writes, old(out)@.len() as int, index@, i as int, w) {
            Ok(w2) => r is Ok && final(dirty)@ == written_columns(w2) && cells_agree(final(out)@, w2),
            Err(ZScoreStop::Failed(m)) => r matches Err(e) && e@ == m,
            Err(ZScoreStop::NotAFloat(_)) => false,
        },
{
    let ghost n = out@.len();
    let r = set_value_indirect(out, dirty, index, i, value);
    proof {
        if (i as int) < index@.len() && index@[i as int] < n {
            let w2 = writes.push((index@[i as int] as int, w));
            assert(written_columns(w2) =~= written_columns(writes).push(index@[i as int]));
            assert forall|c: int| 0 <= c < out@.len() implies cell_agrees(#[trigger] out@[c], last_write(w2, c)) by {
                lemma_last_write_push(writes, (index@[i as int] as int, w), c);
            }
        }
    }
    r
}

/// Writes one row's z-score, standard deviation, average and has-data flag: the statistics where
/// there are some, else the empty value.
fn write_zscore_cells<F: EvalexprFloat>(out: &mut Vec<Value<F>>, dirty: &mut Vec<usize>, cols: &ZScoreColumns, i: usize,
    stats: Option<ZScoreStats<F>>, Ghost(writes): Ghost<Seq<(int, CellWrite<F>)>>) -> (r: Result<(), Error>)
    requires
        old(dirty)@ == written_columns(writes),
        cells_agree(old(out)@, writes),
    ensures
        final(out)@.len() == old(out)@.len(),
        match zscore_cells::<F>(writes, old(out)@.len() as int, *cols, i as int, stats) {
            Ok(w2) => r is Ok && final(dirty)@ == written_columns(w2) && cells_agree(final(out)@, w2),
            Err(ZScoreStop::Failed(m)) => r matches Err(e) && e@ == m,
            Err(ZScoreStop::NotAFloat(_)) => false,
        },
{
    let (zs, sd, av, hd) = match stats {
        Some(s) => (Value::Float(s.zscore), Value::Float(s.stdev), Value::Float(s.avg), Value::Boolean(true)),
        None => (Value::Empty, Value::Empty, Value::Empty, Value::Empty),
    };
    let ghost (z, d, a, f) = match stats {
        Some(st) => (CellWrite::Stat(st.zscore), CellWrite::Stat(st.stdev), CellWrite::Stat(st.avg), CellWrite::Flag),
        None => (CellWrite::Blank, CellWrite::Blank, CellWrite::Blank, CellWrite::Blank),
    };
    match write_cell(out, dirty, &cols.zscore, i, zs, Ghost(z), Ghost(writes)) {
        Err(e) => return Err(e),
        Ok(()) => {},
    }
    let ghost w1 = writes.push((cols.zscore@[i as int] as int, z));
    match write_cell(out, dirty, &cols.stdev, i, sd, Ghost(d), Ghost(w1)) {
        Err(e) => return Err(e),
        Ok(()) => {},
    }
    let ghost w2 = w1.push((cols.stdev@[i as int] as int, d));
    match write_cell(out, dirty, &cols.avg, i, av, Ghost(a), Ghost(w2)) {
        Err(e) => return Err(e),
        Ok(()) => {},
    }
    let ghost w3 = w2.push((cols.avg@[i as int] as int, a));
    write_cell(out, dirty, &cols.has_data, i, hd, Ghost(f), Ghost(w3))
}

/// Rows `start` up to `end` of one field of a rolling z-score (see `zscore_rows`).
fn zscore_field<F: EvalexprFloat + core::fmt::Debug>(row: &Vec<Value<F>>, cols: &ZScoreColumns, start: usize, end: usize,
    window: &mut ZScoreWindow<F>, out: &mut Vec<Value<F>>, dirty: &mut Vec<usize>, Ghost(st0): Ghost<ZScoreState<F>>)
    -> (r: Result<(), Error>)
    requires
        old(window).well_formed(),
        old(window).spec_values() == st0.window,
        old(window).spec_sum() == st0.sum,
        old(window).spec_sum_squares() == st0.sum_squares,
        !st0.has_last,
        old(out)@.len() == row@.len(),
        old(dirty)@ == written_columns(st0.writes),
        cells_agree(old(out)@, st0.writes),
    ensures
        final(window).well_formed(),
        final(window).spec_size() == old(window).spec_size(),
        final(out)@.len() == row@.len(),
        match zscore_rows(row@, *cols, old(window).spec_size(), start as int, end as int, st0) {
            Ok(st) => r is Ok && final(window).spec_values() == st.window && final(window).spec_sum() == st.sum
                && final(window).spec_sum_squares() == st.sum_squares
                && final(dirty)@ == written_columns(st.writes) && cells_agree(final(out)@, st.writes),
            Err(ZScoreStop::Failed(m)) => r matches Err(e) && e@ == m,
            Err(ZScoreStop::NotAFloat(v)) => r matches Err(e)
                && (e@ matches ErrorModel::CustomError(m)
                    && text_holds(crate::error_display::error_text(EModel::<F>::ExpectedFloat { actual: v }), m)),
        },
{
    let ghost size = window.spec_size();
    let ghost mut st = st0;
    let mut last_value: Option<F> = None;
    if start >= end {
        return Ok(());
    }
    let mut i = start;
    while i < end
        invariant
            start <= i <= end,
            size == window.spec_size(),
            size == old(window).spec_size(),
            zscore_rows(row@, *cols, size, start as int, i as int, st0) == Ok::<ZScoreState<F>, ZScoreStop<F>>(st),
            window.well_formed(),
            window.spec_values() == st.window,
            window.spec_sum() == st.sum,
            window.spec_sum_squares() == st.sum_squares,
            last_value == (if st.has_last { Some(st.last) } else { None::<F> }),
            out@.len() == row@.len(),
            dirty@ == written_columns(st.writes),
            cells_agree(out@, st.writes),
        decreases end - i,
    {
        let ghost before = st;
        assert(zscore_rows(row@, *cols, size, start as int, i + 1, st0) == zscore_row(row@, *cols, size, i as int, before));
        let cell = match get_value_indirect(row, &cols.input, i) {
            Ok(v) => v,
            Err(e) => {
                proof { lemma_rows_err_stays(row@, *cols, size, start as int, i + 1, end as int, st0); }
                return Err(e);
            },
        };
        let value_opt = match cell.as_float_or_none() {
            Ok(v) => v,
            Err(e) => {
                proof { lemma_rows_err_stays(row@, *cols, size, start as int, i + 1, end as int, st0); }
                return Err(Error::from_evalexpr_error(&e));
            },
        };
        let current = match value_opt {
            Some(v) => Some(v),
            None => last_value,
        };
        match current {
            Some(value) => {
                last_value = Some(value);
                let stats = window.push(value);
                let ghost full = before.window.len() == size;
                let ghost dropped = if full { Some(before.window[0]) } else { None };
                let ghost next = ZScoreState {
                    writes: before.writes,
                    window: (if full { before.window.drop_first() } else { before.window }).push(value),
                    sum: running_sum(before.sum, dropped, value),
                    sum_squares: running_sum_squares(before.sum_squares, dropped, value),
                    has_last: true,
                    last: value,
                };
                if stats.is_some() {
                    let ghost writes = before.writes;
                    match write_zscore_cells(out, dirty, cols, i, stats, Ghost(writes)) {
                        Err(e) => {
                            proof { lemma_rows_err_stays(row@, *cols, size, start as int, i + 1, end as int, st0); }
                            return Err(e);
                        },
                        Ok(()) => {},
                    }
                    proof {
                        st = ZScoreState {
                            writes: zscore_cells::<F>(writes, row@.len() as int, *cols, i as int, stats)->Ok_0,
                            ..next
                        };
                    }
                } else {
                    proof { st = next; }
                }
            },
            None => {
                if window.is_full() {
                    let ghost writes = before.writes;
                    match write_zscore_cells(out, dirty, cols, i, None, Ghost(writes)) {
                        Err(e) => {
                            proof { lemma_rows_err_stays(row@, *cols, size, start as int, i + 1, end as int, st0); }
                            return Err(e);
                        },
                        Ok(()) => {},
                    }
                    proof {
                        st = ZScoreState {
                            writes: zscore_cells::<F>(writes, row@.len() as int, *cols, i as int, None)->Ok_0,
                            ..before
                        };
                    }
                }
            },
        }
        i += 1;
    }
    Ok(())
}

impl RollingZScore {
    /// Computes the rolling z-scores of one row, given where each field's cells are: for each
    /// field in turn, over the rows from `window_size` rows before `cycle_epoch` up to
    /// `row_count`, with one window that carries over from field to field. Returns the written
    /// cells (the others empty) and the columns written, in order (see `zscore_fields`).
    pub fn commit_values<F: EvalexprFloat + core::fmt::Debug>(&self, row: &Vec<Value<F>>, columns: &Vec<ZScoreColumns>,
        row_count: usize, cycle_epoch: usize) -> (r: Result<(Vec<Value<F>>, Vec<usize>), Error>)
        ensures
            zscore_result(row@.len() as int, zscore_fields(row@, columns@, self.spec_window_size(),
                zscore_start(cycle_epoch, self.spec_window_size()), row_count as int, columns@.len() as int,
                zscore_initial()), r),
    {
        proof { use_type_invariant(self); }
        let start: usize = if cycle_epoch >= self.window_size as usize { cycle_epoch - self.window_size as usize } else { 0 };
        let mut out: Vec<Value<F>> = Vec::new();
        let mut j: usize = 0;
        while j < row.len()
            invariant
                j <= row@.len(),
                out@.len() == j,
                forall|c: int| 0 <= c < j ==> #[trigger] out@[c] is Empty,
            decreases row@.len() - j,
        {
            out.push(Value::Empty);
            j += 1;
        }
        let ghost size = self.window_size;
        let ghost st_init = zscore_initial::<F>();
        let ghost mut st = st_init;
        assert(cells_agree(out@, st.writes));
        let mut window: ZScoreWindow<F> = ZScoreWindow::new(self.window_size);
        let mut dirty: Vec<usize> = Vec::new();
        assert(dirty@ =~= written_columns(st.writes));
        let mut k: usize = 0;
        while k < columns.len()
            invariant
                k <= columns@.len(),
                size == self.spec_window_size(),
                st_init == zscore_initial::<F>(),
                start as int == zscore_start(cycle_epoch, self.spec_window_size()),
                zscore_fields(row@, columns@, size, start as int, row_count as int, k as int, st_init)
                    == Ok::<ZScoreState<F>, ZScoreStop<F>>(st),
                window.well_formed(),
                window.spec_size() == size,
                window.spec_values() == st.window,
                window.spec_sum() == st.sum,
                window.spec_sum_squares() == st.sum_squares,
                out@.len() == row@.len(),
                dirty@ == written_columns(st.writes),
                cells_agree(out@, st.writes),
            decreases columns@.len() - k,
        {
            let ghost st_field = ZScoreState { has_last: false, ..st };
            assert(zscore_fields(row@, columns@, size, start as int, row_count as int, k + 1, st_init)
                == zscore_rows(row@, columns@[k as int], size, start as int, row_count as int, st_field));
            let cols = &columns[k];
            assert(*cols == columns@[k as int]);
            match zscore_field(row, cols, start, row_count, &mut window, &mut out, &mut dirty, Ghost(st_field)) {
                Err(e) => {
                    proof {
                        lemma_fields_err_stays(row@, columns@, size, start as int, row_count as int, k + 1,
                            columns@.len() as int, st_init);
                    }
                    return Err(e);
                },
                Ok(()) => {},
            }
            proof {
                st = zscore_rows(row@, columns@[k as int], size, start as int, row_count as int, st_field)->Ok_0;
            }
            k += 1;
        }
        Ok((out, dirty))
    }
}

/// A trade model that follows a signal field.
pub struct SimpleTradeModel {
    signal_field: String,
    price_value_field: String,
    conviction_field_name: String,
    instrument_field_name: String,
    initial_stop_loss_field_name: String,
    initial_take_profit_field_name: String,
    holding_period: IntType,
    re_entry_time: IntType,
}

impl SimpleTradeModel {
    /// The fields the model reads, in the order instrument, signal, price, conviction, stop loss, take profit.
    pub closed spec fn spec_fields(&self) -> Seq<Seq<char>> {
        seq![self.instrument_field_name@, self.signal_field@, self.price_value_field@, self.conviction_field_name@,
            self.initial_stop_loss_field_name@, self.initial_take_profit_field_name@]
    }

    /// The holding period and the re-entry time.
    pub closed spec fn spec_periods(&self) -> (IntType, IntType) {
        (self.holding_period, self.re_entry_time)
    }

    /// Creates the model.
    pub fn new(instrument_field_name: &str, signal_field_name: &str, price_value_field_name: &str, stop_loss_field_name: &str,
        take_profit_field_name: &str, conviction_field_name: &str, holding_period: IntType, re_entry_time: IntType) -> (r: SimpleTradeModel)
        ensures
            r.spec_fields() == seq![instrument_field_name@, signal_field_name@, price_value_field_name@, conviction_field_name@,
                stop_loss_field_name@, take_profit_field_name@],
            r.spec_periods() == (holding_period, re_entry_time),
    {
        SimpleTradeModel {
            instrument_field_name: instrument_field_name.to_owned(),
            signal_field: signal_field_name.to_owned(),
            price_value_field: price_value_field_name.to_owned(),
            conviction_field_name: conviction_field_name.to_owned(),
            initial_stop_loss_field_name: stop_loss_field_name.to_owned(),
            initial_take_profit_field_name: take_profit_field_name.to_owned(),
            holding_period,
            re_entry_time,
        }
    }

    /// The fields the model reads.
    pub fn dependencies(&self) -> (r: Vec<String>)
        ensures
            r@.map_values(|f: String| f@) == self.spec_fields(),
    {
        let r = vec![self.instrument_field_name.clone(), self.signal_field.clone(), self.price_value_field.clone(),
            self.conviction_field_name.clone(), self.initial_stop_loss_field_name.clone(), self.initial_take_profit_field_name.clone()];
        assert(r@.map_values(|f: String| f@) =~= self.spec_fields());
        r
    }
}

/// What a trade model knows between two rows: whether a trade is active, whether its entry price
/// is known, the trade's age in rows, the rows since the last trade began or ended, and the
/// signal of the row before.
#[derive(Clone, Copy, Debug, PartialEq, Eq, Structural)]
pub struct TradeState {
    pub active: Option<bool>,
    pub has_initiation_price: bool,
    pub trade_age: Option<IntType>,
    pub days_since_last_trade: Option<IntType>,
    pub prev_signal: Option<bool>,
}

/// What a row tells a trade model: its signal, and whether its price is at or below the trade's
/// stop loss, or at or above its take profit level (false where the trade has none).
#[derive(Clone, Copy, Debug, PartialEq, Eq, Structural)]
pub struct TradeEvent {
    pub signal: bool,
    pub at_or_below_stop_loss: bool,
    pub at_or_above_take_profit: bool,
}

/// What a trade model does in a row.
#[derive(Clone, Copy, Debug, PartialEq, Eq, Structural)]
pub enum TradeAction {
    /// No trade begins or ends.
    Hold,
    /// A trade begins at the row's price.
    Open,
    /// The active trade ends: the price fell to or below the stop loss.
    CloseOnStopLoss,
    /// The active trade ends: the price reached or exceeded the take profit level.
    CloseOnTakeProfit,
    /// The active trade ends: it reached the holding period.
    CloseOnHoldingPeriod,
}

/// The state after an active trade ends.
pub open spec fn closed_state(signal: bool) -> TradeState {
    TradeState {
        active: Some(false),
        has_initiation_price: false,
        trade_age: None,
        days_since_last_trade: Some(0),
        prev_signal: Some(signal),
    }
}

/// One row of the trade model with the given holding period and re-entry time: an active trade
/// ages by one row and ends at its stop loss, else at its take profit level, else at the holding
/// period; without an active trade, a signal that was off in the row before opens a trade once
/// the re-entry time has passed since the last one, and a row without a signal counts one more
/// row since the last trade. An active trade without an entry price or an age is an error.
pub open spec fn trade_step(holding_period: int, re_entry_time: int, st: TradeState, ev: TradeEvent)
    -> Result<(TradeState, TradeAction), ErrorModel>
{
    if st.active == Some(true) {
        if !st.has_initiation_price {
            Err(ErrorModel::CustomError("Should have trade initiation price for active trade"@))
        } else if st.trade_age is None {
            Err(ErrorModel::CustomError("Should have trade age for active trade"@))
        } else {
            let age = st.trade_age->Some_0 + 1;
            if ev.at_or_below_stop_loss {
                Ok((closed_state(ev.signal), TradeAction::CloseOnStopLoss))
            } else if ev.at_or_above_take_profit {
                Ok((closed_state(ev.signal), TradeAction::CloseOnTakeProfit))
            } else if age >= holding_period {
                Ok((closed_state(ev.signal), TradeAction::CloseOnHoldingPeriod))
            } else {
                Ok((TradeState { trade_age: Some(age as IntType), prev_signal: Some(ev.signal), ..st }, TradeAction::Hold))
            }
        }
    } else if ev.signal {
        if st.prev_signal != Some(true) && (st.days_since_last_trade matches Some(d) ==> d >= re_entry_time) {
            Ok((TradeState {
                active: Some(true),
                has_initiation_price: true,
                trade_age: Some(0),
                days_since_last_trade: Some(0),
                prev_signal: Some(true),
            }, TradeAction::Open))
        } else {
            Ok((TradeState { prev_signal: Some(true), ..st }, TradeAction::Hold))
        }
    } else {
        let days = match st.days_since_last_trade { Some(d) => d + 1, None => 1 };
        Ok((TradeState { days_since_last_trade: Some(days as IntType), prev_signal: Some(false), ..st }, TradeAction::Hold))
    }
}

impl SimpleTradeModel {
    /// What the model does in one row (see `trade_step`).
    pub fn step(&self, state: TradeState, event: TradeEvent) -> (r: Result<(TradeState, TradeAction), Error>)
        requires
            state.trade_age matches Some(a) ==> a < i64::MAX,
            state.days_since_last_trade matches Some(d) ==> d < i64::MAX,
        ensures
            match r {
                Ok(x) => trade_step(self.spec_periods().0 as int, self.spec_periods().1 as int, state, event)
                    == Ok::<(TradeState, TradeAction), ErrorModel>(x),
                Err(e) => trade_step(self.spec_periods().0 as int, self.spec_periods().1 as int, state, event)
                    == Err::<(TradeState, TradeAction), ErrorModel>(e@),
            },
            state.active == Some(true) && r is Ok && r->Ok_0.1 == TradeAction::Hold
                ==> (r->Ok_0.0.trade_age matches Some(a) && a < self.spec_periods().0),
            r matches Ok((_, TradeAction::Open)) ==> state.active != Some(true) && event.signal
                && state.prev_signal != Some(true)
                && (state.days_since_last_trade matches Some(d) ==> d >= self.spec_periods().1),
    {
        if state.active == Some(true) {
            if !state.has_initiation_price {
                return Err(Error::CustomError("Should have trade initiation price for active trade".to_owned()));
            }
            let age = match state.trade_age {
                Some(a) => a + 1,
                None => return Err(Error::CustomError("Should have trade age for active trade".to_owned())),
            };
            let closed = TradeState {
                active: Some(false),
                has_initiation_price: false,
                trade_age: None,
                days_since_last_trade: Some(0),
                prev_signal: Some(event.signal),
            };
            if event.at_or_below_stop_loss {
                Ok((closed, TradeAction::CloseOnStopLoss))
            } else if event.at_or_above_take_profit {
                Ok((closed, TradeAction::CloseOnTakeProfit))
            } else if age >= self.holding_period {
                Ok((closed, TradeAction::CloseOnHoldingPeriod))
            } else {
                Ok((TradeState { trade_age: Some(age), prev_signal: Some(event.signal), ..state }, TradeAction::Hold))
            }
        } else if event.signal {
            let waited = match state.days_since_last_trade {
                Some(d) => d >= self.re_entry_time,
                None => true,
            };
            if state.prev_signal != Some(true) && waited {
                Ok((TradeState {
                    active: Some(true),
                    has_initiation_price: true,
                    trade_age: Some(0),
                    days_since_last_trade: Some(0),
                    prev_signal: Some(true),
                }, TradeAction::Open))
            } else {
                Ok((TradeState { prev_signal: Some(true), ..state }, TradeAction::Hold))
            }
        } else {
            let days = match state.days_since_last_trade {
                Some(d) => d + 1,
                None => 1,
            };
            Ok((TradeState { days_since_last_trade: Some(days), prev_signal: Some(false), ..state }, TradeAction::Hold))
        }
    }
}


/// What the adaptive stop-loss model knows between two rows: whether a trade is active, whether
/// its entry price, stop loss and take profit level are known, its age in rows, and the signal of
/// the row before.
#[derive(Clone, Copy, Debug, PartialEq, Eq, Structural)]
pub struct AdaptiveTradeState {
    pub active: Option<bool>,
    pub has_initiation_price: bool,
    pub has_stop_loss: bool,
    pub has_take_profit: bool,
    pub trade_age: Option<IntType>,
    pub prev_signal: Option<bool>,
}

/// The fewest rows a trade of the adaptive model lasts before its stop loss may end it.
pub const MIN_TRADE_DURATION: IntType = 5;

/// The adaptive model's state after an active trade ends.
pub open spec fn adaptive_closed_state(signal: bool) -> AdaptiveTradeState {
    AdaptiveTradeState {
        active: Some(false),
        has_initiation_price: false,
        has_stop_loss: false,
        has_take_profit: false,
        trade_age: None,
        prev_signal: Some(signal),
    }
}

/// An active trade of the adaptive model knows its entry price, stop loss, take profit level and
/// age.
pub open spec fn adaptive_state_complete(st: AdaptiveTradeState) -> bool {
    st.active == Some(true) ==> st.has_initiation_price && st.has_stop_loss && st.has_take_profit
        && st.trade_age is Some
}

/// One row of the adaptive stop-loss model: an active trade ages by one row and ends at its
/// stop loss once it is at least `MIN_TRADE_DURATION` rows old, else at its take profit level;
/// without an active trade, a signal that was off in the row before opens one. An active trade
/// without its entry price, stop loss, take profit level or age is an error.
pub open spec fn adaptive_trade_step(st: AdaptiveTradeState, ev: TradeEvent)
    -> Result<(AdaptiveTradeState, TradeAction), ErrorModel>
{
    if st.active == Some(true) {
        if !st.has_initiation_price {
            Err(ErrorModel::CustomError("Should have trade initiation price for active trade"@))
        } else if !st.has_stop_loss {
            Err(ErrorModel::CustomError("Should have stop loss for active trade"@))
        } else if !st.has_take_profit {
            Err(ErrorModel::CustomError("Should have take profit active trade"@))
        } else if st.trade_age is None {
            Err(ErrorModel::CustomError("Should have trade age for active trade"@))
        } else {
            let age = st.trade_age->Some_0 + 1;
            let aged = AdaptiveTradeState { trade_age: Some(age as IntType), prev_signal: Some(ev.signal), ..st };
            if ev.at_or_below_stop_loss {
                if age >= MIN_TRADE_DURATION {
                    Ok((adaptive_closed_state(ev.signal), TradeAction::CloseOnStopLoss))
                } else {
                    Ok((aged, TradeAction::Hold))
                }
            } else if ev.at_or_above_take_profit {
                Ok((adaptive_closed_state(ev.signal), TradeAction::CloseOnTakeProfit))
            } else {
                Ok((aged, TradeAction::Hold))
            }
        }
    } else if ev.signal && st.prev_signal != Some(true) {
        Ok((AdaptiveTradeState {
            active: Some(true),
            has_initiation_price: true,
            has_stop_loss: true,
            has_take_profit: true,
            trade_age: Some(0),
            prev_signal: Some(true),
        }, TradeAction::Open))
    } else {
        Ok((AdaptiveTradeState { prev_signal: Some(ev.signal), ..st }, TradeAction::Hold))
    }
}

/// What the adaptive stop-loss model does in one row (see `adaptive_trade_step`). From a state
/// whose active trade is complete, the step succeeds and leads to such a state again; a trade
/// ends at its stop loss only once it is at least `MIN_TRADE_DURATION` rows old.
pub fn adaptive_stop_loss_step(state: AdaptiveTradeState, event: TradeEvent)
    -> (r: Result<(AdaptiveTradeState, TradeAction), Error>)
    requires
        state.trade_age matches Some(a) ==> a < i64::MAX,
    ensures
        match r {
            Ok(x) => adaptive_trade_step(state, event) == Ok::<(AdaptiveTradeState, TradeAction), ErrorModel>(x),
            Err(e) => adaptive_trade_step(state, event) == Err::<(AdaptiveTradeState, TradeAction), ErrorModel>(e@),
        },
        adaptive_state_complete(state) ==> (r matches Ok((next, _)) && adaptive_state_complete(next)),
        r matches Ok((_, TradeAction::CloseOnStopLoss)) ==> (state.trade_age matches Some(a)
            && a + 1 >= MIN_TRADE_DURATION),
        r matches Ok((_, TradeAction::CloseOnHoldingPeriod)) ==> false,
{
    if state.active == Some(true) {
        if !state.has_initiation_price {
            return Err(Error::CustomError("Should have trade initiation price for active trade".to_owned()));
        }
        if !state.has_stop_loss {
            return Err(Error::CustomError("Should have stop loss for active trade".to_owned()));
        }
        if !state.has_take_profit {
            return Err(Error::CustomError("Should have take profit active trade".to_owned()));
        }
        let age = match state.trade_age {
            Some(a) => a + 1,
            None => return Err(Error::CustomError("Should have trade age for active trade".to_owned())),
        };
        let aged = AdaptiveTradeState { trade_age: Some(age), prev_signal: Some(event.signal), ..state };
        let closed = AdaptiveTradeState {
            active: Some(false),
            has_initiation_price: false,
            has_stop_loss: false,
            has_take_profit: false,
            trade_age: None,
            prev_signal: Some(event.signal),
        };
        if event.at_or_below_stop_loss {
            if age >= MIN_TRADE_DURATION {
                Ok((closed, TradeAction::CloseOnStopLoss))
            } else {
                Ok((aged, TradeAction::Hold))
            }
        } else if event.at_or_above_take_profit {
            Ok((closed, TradeAction::CloseOnTakeProfit))
        } else {
            Ok((aged, TradeAction::Hold))
        }
    } else if event.signal && state.prev_signal != Some(true) {
        Ok((AdaptiveTradeState {
            active: Some(true),
            has_initiation_price: true,
            has_stop_loss: true,
            has_take_profit: true,
            trade_age: Some(0),
            prev_signal: Some(true),
        }, TradeAction::Open))
    } else {
        Ok((AdaptiveTradeState { prev_signal: Some(event.signal), ..state }, TradeAction::Hold))
    }
}

/// A regression of a dependent variable on independent ones.
pub struct CorrelationAnalysis {
    independent_variables: Vec<String>,
    dependent_variable: String,
}

impl CorrelationAnalysis {
    /// The independent variables.
    pub closed spec fn spec_independent(&self) -> Seq<Seq<char>> {
        self.independent_variables@.map_values(|f: String| f@)
    }

    /// The dependent variable.
    pub closed spec fn spec_dependent(&self) -> Seq<char> {
        self.dependent_variable@
    }

    /// Creates the template.
    pub fn new(dependent_variable: &str, independent_variables: Vec<&str>) -> (r: CorrelationAnalysis)
        ensures
            r.spec_dependent() == dependent_variable@,
            r.spec_independent() == independent_variables@.map_values(|f: &str| f@),
    {
        let fields = owned_names(&independent_variables);
        let r = CorrelationAnalysis { independent_variables: fields, dependent_variable: dependent_variable.to_owned() };
        assert(r.spec_independent() =~= independent_variables@.map_values(|f: &str| f@));
        r
    }

    /// The columns the template writes: for each independent variable its coefficient, p-value,
    /// R squared and adjusted R squared, all floats.
    pub fn schema(&self) -> (r: Vec<(String, ValueType)>)
        ensures
            r@.len() == 4 * self.spec_independent().len(),
            forall|i: int| 0 <= i < self.spec_independent().len() ==>
                (#[trigger] r@[4 * i]).0@ == self.spec_independent()[i] + "coefficient"@ && r@[4 * i].1 == ValueType::Float
                && r@[4 * i + 1].0@ == self.spec_independent()[i] + "pvalue"@ && r@[4 * i + 1].1 == ValueType::Float
                && r@[4 * i + 2].0@ == self.spec_independent()[i] + "rsquared"@ && r@[4 * i + 2].1 == ValueType::Float
                && r@[4 * i + 3].0@ == self.spec_independent()[i] + "adjustedrsquared"@ && r@[4 * i + 3].1 == ValueType::Float,
    {
        let mut r: Vec<(String, ValueType)> = Vec::new();
        let mut i: usize = 0;
        while i < self.independent_variables.len()
            invariant
                i <= self.independent_variables@.len(),
                r@.len() == 4 * i,
                forall|j: int| 0 <= j < i ==>
                    (#[trigger] r@[4 * j]).0@ == self.independent_variables@[j]@ + "coefficient"@ && r@[4 * j].1 == ValueType::Float
                    && r@[4 * j + 1].0@ == self.independent_variables@[j]@ + "pvalue"@ && r@[4 * j + 1].1 == ValueType::Float
                    && r@[4 * j + 2].0@ == self.independent_variables@[j]@ + "rsquared"@ && r@[4 * j + 2].1 == ValueType::Float
                    && r@[4 * j + 3].0@ == self.independent_variables@[j]@ + "adjustedrsquared"@ && r@[4 * j + 3].1 == ValueType::Float,
            decreases self.independent_variables@.len() - i,
        {
            let field = self.independent_variables[i].as_str();
            r.push((to_coeficient(field), ValueType::Float));
            r.push((to_pvalue(field), ValueType::Float));
            r.push((to_rsquared(field), ValueType::Float));
            r.push((to_adjusted_rsquared(field), ValueType::Float));
            i += 1;
        }
        r
    }

    /// The fields the template reads: the independent variables, then the dependent one.
    pub fn dependencies(&self) -> (r: Vec<String>)
        ensures
            r@.map_values(|f: String| f@) == self.spec_independent().push(self.spec_dependent()),
    {
        let mut r = copy_names(&self.independent_variables);
        r.push(self.dependent_variable.clone());
        assert(r@.map_values(|f: String| f@) =~= self.spec_independent().push(self.spec_dependent()));
        r
    }
}

/// The error for a position that the column index does not have.
pub open spec fn missing_index_error(idx: usize) -> ErrorModel {
    ErrorModel::CustomError("Column not found in index"@ + decimal_digits(idx as nat))
}

/// The error for a column that the row does not have.
pub open spec fn missing_column_error(column: usize) -> ErrorModel {
    ErrorModel::CustomError("Column "@ + decimal_digits(column as nat) + " not found in row"@)
}

/// The column that position `idx` of a column index names, or the error that it names none or
/// one the row does not have.
fn indirect_column(row_len: usize, column_index: &Vec<usize>, idx: usize) -> (r: Result<usize, Error>)
    ensures
        idx >= column_index@.len() ==> (r matches Err(e) && e@ == missing_index_error(idx)),
        idx < column_index@.len() && column_index@[idx as int] >= row_len
            ==> (r matches Err(e) && e@ == missing_column_error(column_index@[idx as int])),
        idx < column_index@.len() && column_index@[idx as int] < row_len ==> r == Ok::<usize, Error>(column_index@[idx as int]),
{
    if idx >= column_index.len() {
        let mut message = "Column not found in index".to_owned();
        let number = usize_to_string(idx);
        push_str(&mut message, number.as_str());
        return Err(Error::CustomError(message));
    }
    let column = column_index[idx];
    if column >= row_len {
        let mut message = "Column ".to_owned();
        let number = usize_to_string(column);
        push_str(&mut message, number.as_str());
        push_str(&mut message, " not found in row");
        return Err(Error::CustomError(message));
    }
    Ok(column)
}

/// The value of a row that position `idx` of a column index points to.
pub fn get_value_indirect<'a, F: EvalexprFloat>(values: &'a Vec<Value<F>>, column_index: &Vec<usize>, idx: usize) -> (r: Result<&'a Value<F>, Error>)
    ensures
        idx >= column_index@.len() ==> (r matches Err(e) && e@ == missing_index_error(idx)),
        idx < column_index@.len() && column_index@[idx as int] >= values@.len()
            ==> (r matches Err(e) && e@ == missing_column_error(column_index@[idx as int])),
        idx < column_index@.len() && column_index@[idx as int] < values@.len()
            ==> (r matches Ok(v) && *v == values@[column_index@[idx as int] as int]),
{
    match indirect_column(values.len(), column_index, idx) {
        Ok(column) => Ok(&values[column]),
        Err(e) => Err(e),
    }
}

/// Writes `value` into the column of a row that position `idx` of a column index points to, and
/// records that column as changed.
pub fn set_value_indirect<F: EvalexprFloat>(values: &mut Vec<Value<F>>, dirty_columns: &mut Vec<usize>, column_index: &Vec<usize>, idx: usize, value: Value<F>) -> (r: Result<(), Error>)
    ensures
        idx >= column_index@.len() ==> (r matches Err(e) && e@ == missing_index_error(idx)),
        idx < column_index@.len() && column_index@[idx as int] >= old(values)@.len()
            ==> (r matches Err(e) && e@ == missing_column_error(column_index@[idx as int])),
        r is Err ==> final(values)@ == old(values)@ && final(dirty_columns)@ == old(dirty_columns)@,
        idx < column_index@.len() && column_index@[idx as int] < old(values)@.len() ==> {
            let column = column_index@[idx as int];
            &&& r is Ok
            &&& final(values)@ == old(values)@.update(column as int, value)
            &&& final(dirty_columns)@ == old(dirty_columns)@.push(column)
        },
{
    match indirect_column(values.len(), column_index, idx) {
        Ok(column) => {
            values.set(column, value);
            dirty_columns.push(column);
            Ok(())
        },
        Err(e) => Err(e),
    }
}

/// As `set_value_indirect` where there is a value; nothing happens where there is none.
pub fn set_value_indirect_if_some<F: EvalexprFloat>(values: &mut Vec<Value<F>>, dirty_columns: &mut Vec<usize>, column_index: &Vec<usize>, idx: usize, value: Option<Value<F>>) -> (r: Result<(), Error>)
    ensures
        value is None ==> r is Ok && final(values)@ == old(values)@ && final(dirty_columns)@ == old(dirty_columns)@,
        value is Some && idx >= column_index@.len() ==> (r matches Err(e) && e@ == missing_index_error(idx)),
        value is Some && idx < column_index@.len() && column_index@[idx as int] >= old(values)@.len()
            ==> (r matches Err(e) && e@ == missing_column_error(column_index@[idx as int])),
        r is Err ==> final(values)@ == old(values)@ && final(dirty_columns)@ == old(dirty_columns)@,
        value is Some && idx < column_index@.len() && column_index@[idx as int] < old(values)@.len() ==> {
            let column = column_index@[idx as int];
            &&& r is Ok
            &&& final(values)@ == old(values)@.update(column as int, value->0)
            &&& final(dirty_columns)@ == old(dirty_columns)@.push(column)
        },
{
    match value {
        Some(v) => set_value_indirect(values, dirty_columns, column_index, idx, v),
        None => Ok(()),
    }
}

} // verus!
