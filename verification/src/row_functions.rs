//! Functions over the numbers in some columns of a row (a row given by its values, column `c`
//! being the value at index `c`). Their arithmetic is the float type's; what is stated is which
//! columns they read, when they give the empty value, a float or an error.
use vstd::prelude::*;
use crate::numeric::EvalexprFloat;
use crate::value::{Value, VModel, IntType, float_of};
use crate::builtin::is_num;
use crate::ffi::{Error, ErrorModel};
use crate::text::{push_str, usize_to_string, decimal_digits};

verus! {

/// The value in column `c` of the row, where the row has that column.
pub open spec fn cell<F>(row: Seq<Value<F>>, c: int) -> Option<VModel<F>> {
    if 0 <= c < row.len() { Some(row[c]@) } else { None }
}

/// Whether column `c` of the row holds a number.
pub open spec fn number_cell<F>(row: Seq<Value<F>>, c: int) -> bool {
    cell(row, c) matches Some(v) && is_num(v)
}

/// Whether column `c` of the row holds a value that is neither a number nor empty.
pub open spec fn other_cell<F>(row: Seq<Value<F>>, c: int) -> bool {
    cell(row, c) matches Some(v) && !is_num(v) && !(v is Empty)
}

/// Whether one of the columns holds a number.
pub open spec fn holds_number<F>(row: Seq<Value<F>>, columns: Seq<usize>) -> bool {
    exists|i: int| 0 <= i < columns.len() && #[trigger] number_cell(row, columns[i] as int)
}

/// Whether one of the columns holds a value that is neither a number nor empty.
pub open spec fn holds_non_number<F>(row: Seq<Value<F>>, columns: Seq<usize>) -> bool {
    exists|i: int| 0 <= i < columns.len() && #[trigger] other_cell(row, columns[i] as int)
}

/// What a function that averages or picks among the numbers of the columns gives: a float where a
/// column holds a number, else the empty value.
pub open spec fn float_or_empty<F>(row: Seq<Value<F>>, columns: Seq<usize>, r: Result<Value<F>, Error>) -> bool {
    r matches Ok(v) && (if holds_number(row, columns) { v@ is Float } else { v@ is Empty })
}

/// What a function that accumulates the numbers of the columns gives: the empty value for no
/// columns, `NonNumericType` where a column holds a value that is neither a number nor empty,
/// else a float.
pub open spec fn accumulated<F>(row: Seq<Value<F>>, columns: Seq<usize>, r: Result<Value<F>, Error>) -> bool {
    if columns.len() == 0 {
        r matches Ok(v) && v@ is Empty
    } else if holds_non_number(row, columns) {
        r matches Err(e) && e@ == ErrorModel::NonNumericType
    } else {
        r matches Ok(v) && v@ is Float
    }
}

/// The numbers of the columns, as floats (an integer converted by `from_int`), in the order of
/// the columns; columns that hold no number are skipped.
pub open spec fn spec_numbers<F: EvalexprFloat>(row: Seq<Value<F>>, columns: Seq<usize>) -> Seq<F>
    decreases columns.len(),
{
    if columns.len() == 0 {
        Seq::empty()
    } else {
        let prefix = spec_numbers(row, columns.drop_last());
        let c = columns.last() as int;
        if number_cell(row, c) { prefix.push(float_of(row[c]@)) } else { prefix }
    }
}

/// The sum of the floats, added from the float zero in order.
pub open spec fn float_sum<F: EvalexprFloat>(s: Seq<F>) -> F
    decreases s.len(),
{
    if s.len() == 0 { F::spec_from_int(0) } else { float_sum(s.drop_last()).spec_add(s.last()) }
}

/// The smallest of the floats by the float type's `min`, taken from the first on.
pub open spec fn float_min<F: EvalexprFloat>(s: Seq<F>) -> F
    decreases s.len(),
{
    if s.len() <= 1 { s[0] } else { float_min(s.drop_last()).spec_min(s.last()) }
}

/// The sum of the squared deviations of the floats from `mean`, added from the float zero in order.
pub open spec fn squared_deviations<F: EvalexprFloat>(s: Seq<F>, mean: F) -> F
    decreases s.len(),
{
    if s.len() == 0 {
        F::spec_from_int(0)
    } else {
        squared_deviations(s.drop_last(), mean).spec_add(s.last().spec_sub(mean).spec_powi(2))
    }
}

/// The product of one plus each float, from one on in order.
pub open spec fn compounded<F: EvalexprFloat>(s: Seq<F>) -> F
    decreases s.len(),
{
    if s.len() == 0 {
        F::spec_from_int(1)
    } else {
        compounded(s.drop_last()).spec_mul(F::spec_from_int(1).spec_add(s.last()))
    }
}

/// The float of a number of items.
pub open spec fn count_float<F: EvalexprFloat>(n: nat) -> F {
    F::spec_from_int(n as i64)
}

/// The mean of the floats.
pub open spec fn float_mean<F: EvalexprFloat>(s: Seq<F>) -> F {
    float_sum(s).spec_div(count_float(s.len()))
}

/// The population standard deviation of the floats.
pub open spec fn float_stdev<F: EvalexprFloat>(s: Seq<F>) -> F {
    squared_deviations(s, float_mean(s)).spec_div(count_float(s.len())).spec_sqrt()
}

/// The result of a function of the numbers of the columns: `value` of them where there is one,
/// else the empty value.
pub open spec fn number_result<F: EvalexprFloat>(row: Seq<Value<F>>, columns: Seq<usize>, value: F, r: Result<Value<F>, Error>) -> bool {
    r matches Ok(v) && (if holds_number(row, columns) { v@ == VModel::<F>::Float(value) } else { v@ is Empty })
}

proof fn lemma_numbers_take<F: EvalexprFloat>(row: Seq<Value<F>>, columns: Seq<usize>, i: int)
    requires
        0 <= i < columns.len(),
    ensures
        spec_numbers(row, columns.take(i + 1)) == (if number_cell(row, columns[i] as int) {
            spec_numbers(row, columns.take(i)).push(float_of(row[columns[i] as int]@))
        } else {
            spec_numbers(row, columns.take(i))
        }),
{
    assert(columns.take(i + 1).drop_last() =~= columns.take(i));
}

/// The number in column `c` of the row, as a float, where it holds one.
fn number_at<F: EvalexprFloat>(row: &[Value<F>], c: usize) -> (r: Option<F>)
    ensures
        r is Some <==> number_cell(row@, c as int),
        r matches Some(x) ==> x == float_of(row@[c as int]@),
{
    if c < row.len() {
        match &row[c] {
            Value::Float(x) => Some(*x),
            Value::Int(i) => Some(F::from_int(*i)),
            _ => None,
        }
    } else {
        None
    }
}

/// The numbers of the columns, as floats, in the order of the columns.
fn numbers_of<F: EvalexprFloat>(row: &[Value<F>], columns: &[usize]) -> (r: Vec<F>)
    ensures
        r@.len() > 0 <==> holds_number(row@, columns@),
        r@.len() <= columns@.len(),
        r@ == spec_numbers(row@, columns@),
{
    let mut numbers: Vec<F> = Vec::new();
    let mut i: usize = 0;
    while i < columns.len()
        invariant
            i <= columns@.len(),
            numbers@.len() <= i,
            numbers@.len() > 0 <==> exists|j: int| 0 <= j < i && #[trigger] number_cell(row@, columns@[j] as int),
            numbers@ == spec_numbers(row@, columns@.take(i as int)),
        decreases columns@.len() - i,
    {
        proof { lemma_numbers_take(row@, columns@, i as int); }
        match number_at(row, columns[i]) {
            Some(x) => numbers.push(x),
            None => {},
        }
        i += 1;
    }
    assert(columns@.take(columns@.len() as int) =~= columns@);
    numbers
}

/// The float of a count.
fn float_of_count<F: EvalexprFloat>(n: usize) -> (r: F)
    requires
        n <= i64::MAX,
    ensures
        r == count_float::<F>(n as nat),
{
    F::from_int(n as i64)
}

/// The smallest number in the columns (by the float type's `min`), or the empty value where there
/// is none.
pub fn rolling_min<F: EvalexprFloat>(row: &[Value<F>], columns: &[usize]) -> (r: Result<Value<F>, Error>)
    ensures
        float_or_empty(row@, columns@, r),
        number_result(row@, columns@, float_min(spec_numbers(row@, columns@)), r),
{
    let numbers = numbers_of(row, columns);
    if numbers.len() == 0 {
        return Ok(Value::Empty);
    }
    let mut min = numbers[0];
    let mut i: usize = 1;
    assert(numbers@.take(1).len() == 1);
    while i < numbers.len()
        invariant
            1 <= i <= numbers@.len(),
            min == float_min(numbers@.take(i as int)),
        decreases numbers@.len() - i,
    {
        assert(numbers@.take(i + 1).drop_last() =~= numbers@.take(i as int));
        min = min.min(numbers[i]);
        i += 1;
    }
    assert(numbers@.take(numbers@.len() as int) =~= numbers@);
    Ok(Value::Float(min))
}

/// The population standard deviation of the numbers in the columns, or the empty value where
/// there is none.
pub fn rolling_stdev<F: EvalexprFloat>(row: &[Value<F>], columns: &[usize]) -> (r: Result<Value<F>, Error>)
    requires
        columns@.len() <= i64::MAX,
    ensures
        float_or_empty(row@, columns@, r),
        number_result(row@, columns@, float_stdev(spec_numbers(row@, columns@)), r),
{
    let numbers = numbers_of(row, columns);
    if numbers.len() == 0 {
        return Ok(Value::Empty);
    }
    let count = float_of_count::<F>(numbers.len());
    let mut sum = F::from_int(0);
    let mut i: usize = 0;
    while i < numbers.len()
        invariant
            i <= numbers@.len(),
            sum == float_sum(numbers@.take(i as int)),
        decreases numbers@.len() - i,
    {
        assert(numbers@.take(i + 1).drop_last() =~= numbers@.take(i as int));
        sum = sum.add(numbers[i]);
        i += 1;
    }
    assert(numbers@.take(numbers@.len() as int) =~= numbers@);
    let mean = sum.div(count);
    let mut squares = F::from_int(0);
    let mut j: usize = 0;
    while j < numbers.len()
        invariant
            j <= numbers@.len(),
            squares == squared_deviations(numbers@.take(j as int), mean),
        decreases numbers@.len() - j,
    {
        assert(numbers@.take(j + 1).drop_last() =~= numbers@.take(j as int));
        squares = squares.add(numbers[j].sub(mean).powi(2));
        j += 1;
    }
    assert(numbers@.take(numbers@.len() as int) =~= numbers@);
    Ok(Value::Float(squares.div(count).sqrt()))
}

/// The mean of the numbers in the columns, or the empty value where there is none.
pub fn simple_moving_average<F: EvalexprFloat>(row: &[Value<F>], columns: &[usize]) -> (r: Result<Value<F>, Error>)
    requires
        columns@.len() <= i64::MAX,
    ensures
        float_or_empty(row@, columns@, r),
        number_result(row@, columns@, float_mean(spec_numbers(row@, columns@)), r),
{
    let numbers = numbers_of(row, columns);
    if numbers.len() == 0 {
        return Ok(Value::Empty);
    }
    let mut sum = F::from_int(0);
    let mut i: usize = 0;
    while i < numbers.len()
        invariant
            i <= numbers@.len(),
            sum == float_sum(numbers@.take(i as int)),
        decreases numbers@.len() - i,
    {
        assert(numbers@.take(i + 1).drop_last() =~= numbers@.take(i as int));
        sum = sum.add(numbers[i]);
        i += 1;
    }
    assert(numbers@.take(numbers@.len() as int) =~= numbers@);
    Ok(Value::Float(sum.div(float_of_count::<F>(numbers.len()))))
}

/// Whether a column holds a value that is neither a number nor empty.
fn has_non_number_column<F: EvalexprFloat>(row: &[Value<F>], columns: &[usize]) -> (r: bool)
    ensures
        r == holds_non_number(row@, columns@),
{
    let mut i: usize = 0;
    while i < columns.len()
        invariant
            i <= columns@.len(),
            forall|j: int| 0 <= j < i ==> !#[trigger] other_cell(row@, columns@[j] as int),
        decreases columns@.len() - i,
    {
        let c = columns[i];
        if c < row.len() {
            match &row[c] {
                Value::Float(_) | Value::Int(_) | Value::Empty => {},
                _ => {
                    assert(other_cell(row@, columns@[i as int] as int));
                    return true;
                },
            }
        }
        i += 1;
    }
    false
}

/// The sum of the numbers in the columns; a value that is neither a number nor empty is an error.
pub fn simple_cumulative_sum<F: EvalexprFloat>(row: &[Value<F>], columns: &[usize]) -> (r: Result<Value<F>, Error>)
    ensures
        accumulated(row@, columns@, r),
        columns@.len() > 0 && !holds_non_number(row@, columns@)
            ==> (r matches Ok(v) && v@ == VModel::<F>::Float(float_sum(spec_numbers(row@, columns@)))),
{
    if columns.len() == 0 {
        return Ok(Value::Empty);
    }
    if has_non_number_column(row, columns) {
        return Err(Error::NonNumericType);
    }
    let mut sum = F::from_int(0);
    let mut i: usize = 0;
    while i < columns.len()
        invariant
            i <= columns@.len(),
            sum == float_sum(spec_numbers(row@, columns@.take(i as int))),
        decreases columns@.len() - i,
    {
        proof { lemma_numbers_take(row@, columns@, i as int); }
        match number_at(row, columns[i]) {
            Some(x) => {
                proof {
                    let prefix = spec_numbers(row@, columns@.take(i as int));
                    assert(prefix.push(x).drop_last() =~= prefix);
                }
                sum = sum.add(x);
            },
            None => {},
        }
        i += 1;
    }
    assert(columns@.take(columns@.len() as int) =~= columns@);
    Ok(Value::Float(sum))
}

/// The compounded return of the returns in the columns (`(1 + r1)(1 + r2)... - 1`); an empty
/// column is skipped, and a value that is neither a number nor empty is an error.
pub fn simple_cumulative_returns<F: EvalexprFloat>(row: &[Value<F>], columns: &[usize]) -> (r: Result<Value<F>, Error>)
    ensures
        accumulated(row@, columns@, r),
        columns@.len() > 0 && !holds_non_number(row@, columns@)
            ==> (r matches Ok(v) && v@ == VModel::<F>::Float(compounded(spec_numbers(row@, columns@)).spec_sub(F::spec_from_int(1)))),
{
    if columns.len() == 0 {
        return Ok(Value::Empty);
    }
    if has_non_number_column(row, columns) {
        return Err(Error::NonNumericType);
    }
    let one = F::from_int(1);
    let mut product = one;
    let mut i: usize = 0;
    while i < columns.len()
        invariant
            i <= columns@.len(),
            one == F::spec_from_int(1),
            product == compounded(spec_numbers(row@, columns@.take(i as int))),
        decreases columns@.len() - i,
    {
        proof { lemma_numbers_take(row@, columns@, i as int); }
        match number_at(row, columns[i]) {
            Some(x) => {
                proof {
                    let prefix = spec_numbers(row@, columns@.take(i as int));
                    assert(prefix.push(x).drop_last() =~= prefix);
                }
                product = product.mul(one.add(x));
            },
            None => {},
        }
        i += 1;
    }
    assert(columns@.take(columns@.len() as int) =~= columns@);
    Ok(Value::Float(product.sub(one)))
}

/// The number of columns.
pub fn columns_len<F: EvalexprFloat>(row: &[Value<F>], columns: &[usize]) -> (r: Result<Value<F>, Error>)
    requires
        columns@.len() <= i64::MAX,
    ensures
        r matches Ok(v) && v@ == VModel::<F>::Int(columns@.len() as int),
{
    Ok(Value::Int(columns.len() as IntType))
}

/// The value in the first column; the float 100 where there are no columns, and an error where
/// the row has no such column.
pub fn back<F: EvalexprFloat>(row: &[Value<F>], columns: &[usize]) -> (r: Result<Value<F>, Error>)
    ensures
        columns@.len() == 0 ==> (r matches Ok(v) && v@ == VModel::<F>::Float(F::spec_from_int(100))),
        columns@.len() > 0 ==> match cell(row@, columns@[0] as int) {
            Some(m) => r matches Ok(v) && v@ == m,
            None => r matches Err(e) && e@ == ErrorModel::CustomError(
                "Column "@ + decimal_digits(columns@[0] as nat) + " not found in row"@),
        },
{
    if columns.len() == 0 {
        return Ok(Value::Float(F::from_int(100)));
    }
    let c = columns[0];
    if c < row.len() {
        Ok(row[c].copy_value())
    } else {
        let mut message = "Column ".to_owned();
        let number = usize_to_string(c);
        push_str(&mut message, number.as_str());
        push_str(&mut message, " not found in row");
        Err(Error::CustomError(message))
    }
}

/// The weighted price of column `columns[k]` (its number times `weight`), where it holds a number.
pub open spec fn weighted_term<F: EvalexprFloat>(row: Seq<Value<F>>, columns: Seq<usize>, k: int, weight: int) -> Option<F> {
    if number_cell(row, columns[k] as int) {
        Some(float_of(row[columns[k] as int]@).spec_mul(F::spec_from_int(weight as i64)))
    } else {
        None
    }
}

/// A sum with a term added where there is one.
pub open spec fn add_term<F: EvalexprFloat>(s: F, t: Option<F>) -> F {
    match t {
        Some(x) => s.spec_add(x),
        None => s,
    }
}

/// The weight that a column adds where it holds a number.
pub open spec fn term_weight<F>(row: Seq<Value<F>>, columns: Seq<usize>, k: int, weight: int) -> int {
    if number_cell(row, columns[k] as int) { weight } else { 0 }
}

/// The weighted sum around position `i` of the triangular moving average over the offsets below
/// `j`: at offset `jj` the columns `i + jj` and (for `jj > 0`) `i - jj`, each weighing
/// `half + 1 - jj` where it exists and holds a number, with `half` half the number of columns.
pub open spec fn tri_window_sum<F: EvalexprFloat>(row: Seq<Value<F>>, columns: Seq<usize>, i: int, j: int) -> F
    decreases j,
{
    if j <= 0 {
        F::spec_from_int(0)
    } else {
        let jj = j - 1;
        let n = columns.len() as int;
        let w = n / 2 + 1 - jj;
        let s = tri_window_sum(row, columns, i, jj);
        let s1 = if i + jj < n { add_term(s, weighted_term(row, columns, i + jj, w)) } else { s };
        if jj != 0 && i >= jj { add_term(s1, weighted_term(row, columns, i - jj, w)) } else { s1 }
    }
}

/// The weights that `tri_window_sum` adds up.
pub open spec fn tri_window_weight<F>(row: Seq<Value<F>>, columns: Seq<usize>, i: int, j: int) -> int
    decreases j,
{
    if j <= 0 {
        0
    } else {
        let jj = j - 1;
        let n = columns.len() as int;
        let w = n / 2 + 1 - jj;
        let s = tri_window_weight(row, columns, i, jj);
        let s1 = if i + jj < n { s + term_weight(row, columns, i + jj, w) } else { s };
        if jj != 0 && i >= jj { s1 + term_weight(row, columns, i - jj, w) } else { s1 }
    }
}

/// The sum of the window sums of the positions below `i`, from the float zero in order.
pub open spec fn tri_total_sum<F: EvalexprFloat>(row: Seq<Value<F>>, columns: Seq<usize>, i: int) -> F
    decreases i,
{
    if i <= 0 {
        F::spec_from_int(0)
    } else {
        tri_total_sum(row, columns, i - 1).spec_add(tri_window_sum(row, columns, i - 1, columns.len() as int / 2 + 1))
    }
}

/// The sum of the window weights of the positions below `i`.
pub open spec fn tri_total_weight<F>(row: Seq<Value<F>>, columns: Seq<usize>, i: int) -> int
    decreases i,
{
    if i <= 0 {
        0
    } else {
        tri_total_weight(row, columns, i - 1) + tri_window_weight(row, columns, i - 1, columns.len() as int / 2 + 1)
    }
}

/// Adds `price * weight` to the running sums where column `columns[index]` holds a number.
fn add_weighted<F: EvalexprFloat>(row: &[Value<F>], columns: &[usize], index: usize, weight: usize,
    sum: &mut F, total_weight: &mut u64, found: &mut bool)
    requires
        index < columns@.len(),
        1 <= weight <= 2_000_000,
        *old(total_weight) + weight <= 8_000_000_000_000_000_000,
    ensures
        *final(sum) == add_term(*old(sum), weighted_term(row@, columns@, index as int, weight as int)),
        *final(total_weight) == *old(total_weight) + term_weight(row@, columns@, index as int, weight as int),
        number_cell(row@, columns@[index as int] as int) ==> *final(total_weight) == *old(total_weight) + weight && *final(found),
        !number_cell(row@, columns@[index as int] as int) ==> *final(total_weight) == *old(total_weight) && *final(found) == *old(found),
{
    match number_at(row, columns[index]) {
        Some(price) => {
            *sum = sum.add(price.mul(F::from_int(weight as i64)));
            *total_weight = *total_weight + weight as u64;
            *found = true;
        },
        None => {},
    }
}

/// The most weight that the offsets below `j` add around one position, with `h1` the weight at
/// offset zero: `h1` at offset zero, then twice `h1 - jj` at each offset `jj`.
pub open spec fn window_weight_bound(h1: int, j: int) -> int {
    if j <= 0 { 0 } else { h1 + (j - 1) * (2 * h1 - j) }
}

proof fn lemma_window_weight_bound<F>(row: Seq<Value<F>>, columns: Seq<usize>, i: int, j: int)
    requires
        0 <= j <= columns.len() as int / 2 + 1,
    ensures
        0 <= tri_window_weight(row, columns, i, j) <= window_weight_bound(columns.len() as int / 2 + 1, j),
    decreases j,
{
    let h1 = columns.len() as int / 2 + 1;
    if j > 0 {
        lemma_window_weight_bound(row, columns, i, j - 1);
        let jj = j - 1;
        if jj > 0 {
            assert(window_weight_bound(h1, j) == window_weight_bound(h1, jj) + 2 * (h1 - jj)) by (nonlinear_arith)
                requires jj > 0, j == jj + 1;
        }
    }
}

proof fn lemma_total_weight_bound<F>(row: Seq<Value<F>>, columns: Seq<usize>, i: int)
    requires
        0 <= i,
    ensures
        0 <= tri_total_weight(row, columns, i) <= i * ((columns.len() as int / 2 + 1) * (columns.len() as int / 2 + 1)),
    decreases i,
{
    let h1 = columns.len() as int / 2 + 1;
    if i > 0 {
        lemma_total_weight_bound(row, columns, i - 1);
        lemma_window_weight_bound(row, columns, i - 1, h1);
        assert(window_weight_bound(h1, h1) == h1 * h1) by (nonlinear_arith)
            requires h1 >= 1;
        assert((i - 1) * (h1 * h1) + h1 * h1 == i * (h1 * h1)) by (nonlinear_arith);
    }
}

/// The triangular moving average of the numbers in the columns: each column is weighted by a
/// triangle around every position, a column `j` places away weighing `half + 1 - j` (with `half`
/// half the number of columns); the empty value for fewer than three columns or where no column
/// holds a number, else the weighted sum divided by the sum of the weights. The number of
/// columns is bounded so that the sum of the weights fits the integer that the float type
/// converts from.
pub fn triangular_moving_average<F: EvalexprFloat>(row: &[Value<F>], columns: &[usize]) -> (r: Result<Value<F>, Error>)
    requires
        columns@.len() <= 3_000_000,
    ensures
        columns@.len() < 3 ==> (r matches Ok(v) && v@ is Empty),
        columns@.len() >= 3 ==> float_or_empty(row@, columns@, r),
        columns@.len() >= 3 ==> (r matches Ok(v) && v@ == (if tri_total_weight(row@, columns@, columns@.len() as int) > 0 {
            VModel::<F>::Float(tri_total_sum(row@, columns@, columns@.len() as int).spec_div(
                F::spec_from_int(tri_total_weight(row@, columns@, columns@.len() as int) as i64)))
        } else {
            VModel::<F>::Empty
        })),
{
    let n = columns.len();
    if n < 3 {
        return Ok(Value::Empty);
    }
    let half = n / 2;
    let ghost h1 = half + 1;
    proof {
        assert(n * (h1 * h1) <= 7_000_000_000_000_000_000) by (nonlinear_arith)
            requires n <= 3_000_000, h1 == n / 2 + 1;
    }
    let mut total_sum = F::from_int(0);
    let mut total_weight: u64 = 0;
    let mut found = false;
    let mut i: usize = 0;
    while i < n
        invariant
            n == columns@.len(),
            3 <= n <= 3_000_000,
            half == n / 2,
            h1 == half + 1,
            n * (h1 * h1) <= 7_000_000_000_000_000_000,
            i <= n,
            found ==> total_weight > 0,
            total_weight > 0 ==> found,
            found ==> holds_number(row@, columns@),
            (exists|k: int| 0 <= k < i && #[trigger] number_cell(row@, columns@[k] as int)) ==> found,
            total_sum == tri_total_sum(row@, columns@, i as int),
            total_weight == tri_total_weight(row@, columns@, i as int),
        decreases n - i,
    {
        let mut sum = F::from_int(0);
        let mut j: usize = 0;
        let ghost start = total_weight;
        let ghost found_before = found;
        proof {
            lemma_total_weight_bound(row@, columns@, i as int);
            assert(i * (h1 * h1) + h1 * h1 <= n * (h1 * h1)) by (nonlinear_arith)
                requires i < n, h1 >= 1;
        }
        while j <= half
            invariant
                n == columns@.len(),
                3 <= n <= 3_000_000,
                half == n / 2,
                h1 == half + 1,
                i < n,
                j <= half + 1,
                start + h1 * h1 <= 7_000_000_000_000_000_000,
                found ==> total_weight > 0,
                total_weight > 0 ==> found,
                found ==> holds_number(row@, columns@),
                found_before ==> found,
                j > 0 && number_cell(row@, columns@[i as int] as int) ==> found,
                sum == tri_window_sum(row@, columns@, i as int, j as int),
                start == tri_total_weight(row@, columns@, i as int),
                total_weight == start + tri_window_weight(row@, columns@, i as int, j as int),
            decreases half + 1 - j,
        {
            proof {
                lemma_window_weight_bound(row@, columns@, i as int, j as int);
                lemma_window_weight_bound(row@, columns@, i as int, (j + 1) as int);
                lemma_window_weight_bound(row@, columns@, i as int, h1);
                assert(window_weight_bound(h1, h1) == h1 * h1) by (nonlinear_arith)
                    requires h1 >= 1;
                if j > 0 {
                    assert(window_weight_bound(h1, j + 1) == window_weight_bound(h1, j as int) + 2 * (h1 - j)) by (nonlinear_arith)
                        requires j > 0;
                }
                assert(window_weight_bound(h1, j + 1) <= window_weight_bound(h1, h1)) by (nonlinear_arith)
                    requires 0 <= j < h1, h1 >= 1;
            }
            let weight = half + 1 - j;
            if i + j < n {
                let ghost before = found;
                add_weighted(row, columns, i + j, weight, &mut sum, &mut total_weight, &mut found);
                proof {
                    if found && !before {
                        assert(number_cell(row@, columns@[(i + j) as int] as int));
                    }
                }
            }
            if j != 0 && i >= j {
                let ghost before = found;
                add_weighted(row, columns, i - j, weight, &mut sum, &mut total_weight, &mut found);
                proof {
                    if found && !before {
                        assert(number_cell(row@, columns@[(i - j) as int] as int));
                    }
                }
            }
            j += 1;
        }
        total_sum = total_sum.add(sum);
        proof {
            assert forall|k: int| 0 <= k < i + 1 && #[trigger] number_cell(row@, columns@[k] as int) implies found by {
                if k < i {
                    assert(exists|k2: int| 0 <= k2 < i && #[trigger] number_cell(row@, columns@[k2] as int));
                }
            }
        }
        i += 1;
    }
    proof {
        if holds_number(row@, columns@) {
            let k = choose|k: int| 0 <= k < columns@.len() && #[trigger] number_cell(row@, columns@[k] as int);
            assert(exists|k2: int| 0 <= k2 < n && #[trigger] number_cell(row@, columns@[k2] as int));
        }
        lemma_total_weight_bound(row@, columns@, n as int);
    }
    if total_weight > 0 {
        Ok(Value::Float(total_sum.div(F::from_int(total_weight as i64))))
    } else {
        Ok(Value::Empty)
    }
}

} // verus!
