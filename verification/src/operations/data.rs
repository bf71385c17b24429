//! The value model: typed values, rows, deltas and the batch envelope.

use vstd::prelude::*;
use vstd::std_specs::convert::FromSpecImpl;

verus! {

/// The mathematical value that a [`DataType`] stands for.
pub enum Value {
    Null,
    Integer(int),
    Text(Seq<char>),
    Boolean(bool),
    Float(int),
}

/// A value of one of the five supported types.
///
/// The variants are ordered as declared: `Null` is below every integer,
/// every integer is below every text, and so on. `Null` is the SQL null.
///
/// `Float` holds the *order key* of a 32-bit float rather than the float
/// itself: for a non-negative float its IEEE-754 bit pattern, for a negative
/// one the negated bit pattern of its magnitude, so that keys compare as the
/// floats do and both zeros share the key 0. The key of a NaN is not
/// meaningful; callers keep NaN out.
///
/// Contracts speak of [`DataType::same`] and [`DataType::before`]. The
/// derived `==` and `<` are there for callers; nothing is proved of them.
#[derive(Debug, Ord, PartialOrd, Eq, PartialEq, Hash)]
pub enum DataType {
    Null,
    Integer(i32),
    Text(String),
    Boolean(bool),
    Float(i32),
}

impl View for DataType {
    type V = Value;

    open spec fn view(&self) -> Value {
        match *self {
            DataType::Null => Value::Null,
            DataType::Integer(n) => Value::Integer(n as int),
            DataType::Text(s) => Value::Text(s@),
            DataType::Boolean(b) => Value::Boolean(b),
            DataType::Float(k) => Value::Float(k as int),
        }
    }
}

impl Clone for DataType {
    fn clone(&self) -> (r: Self)
        ensures
            r@ == self@,
    {
        match self {
            DataType::Null => DataType::Null,
            DataType::Integer(n) => DataType::Integer(*n),
            DataType::Text(s) => DataType::Text(s.clone()),
            DataType::Boolean(b) => DataType::Boolean(*b),
            DataType::Float(k) => DataType::Float(*k),
        }
    }
}

impl From<i32> for DataType {
    fn from(n: i32) -> (r: Self) {
        DataType::Integer(n)
    }
}

impl FromSpecImpl<i32> for DataType {
    open spec fn obeys_from_spec() -> bool {
        true
    }

    open spec fn from_spec(n: i32) -> Self {
        DataType::Integer(n)
    }
}

impl From<bool> for DataType {
    fn from(n: bool) -> (r: Self) {
        DataType::Boolean(n)
    }
}

impl FromSpecImpl<bool> for DataType {
    open spec fn obeys_from_spec() -> bool {
        true
    }

    open spec fn from_spec(n: bool) -> Self {
        DataType::Boolean(n)
    }
}

impl From<String> for DataType {
    fn from(n: String) -> (r: Self) {
        DataType::Text(n)
    }
}

impl FromSpecImpl<String> for DataType {
    open spec fn obeys_from_spec() -> bool {
        true
    }

    open spec fn from_spec(n: String) -> Self {
        DataType::Text(n)
    }
}

impl<'a> From<&'a str> for DataType {
    fn from(n: &'a str) -> (r: Self)
        ensures
            r@ == Value::Text(n@),
    {
        DataType::Text(n.to_owned())
    }
}

impl<'a> FromSpecImpl<&'a str> for DataType {
    open spec fn obeys_from_spec() -> bool {
        false
    }

    open spec fn from_spec(n: &'a str) -> Self {
        choose|d: DataType| d@ == Value::Text(n@)
    }
}

/// The place of a value's variant in the order of the variants.
pub open spec fn variant_rank(v: Value) -> int {
    match v {
        Value::Null => 0,
        Value::Integer(_) => 1,
        Value::Text(_) => 2,
        Value::Boolean(_) => 3,
        Value::Float(_) => 4,
    }
}

/// Lexicographic order of texts by the code points of their characters.
pub open spec fn text_lt(a: Seq<char>, b: Seq<char>) -> bool
    decreases a.len(),
{
    if b.len() == 0 {
        false
    } else if a.len() == 0 {
        true
    } else if a[0] != b[0] {
        (a[0] as int) < (b[0] as int)
    } else {
        text_lt(a.drop_first(), b.drop_first())
    }
}

/// The total order of values: by variant first, then within the variant.
pub open spec fn value_lt(a: Value, b: Value) -> bool {
    match (a, b) {
        (Value::Integer(x), Value::Integer(y)) => x < y,
        (Value::Text(x), Value::Text(y)) => text_lt(x, y),
        (Value::Boolean(x), Value::Boolean(y)) => !x && y,
        (Value::Float(x), Value::Float(y)) => x < y,
        _ => variant_rank(a) < variant_rank(b),
    }
}

/// Whether the first text sorts strictly before the second.
///
/// Calls the `<` that std gives `String`, which std documents as the
/// lexicographic order of the strings' bytes and hence of their code points.
#[verifier::external_body]
fn text_before(a: &String, b: &String) -> (r: bool)
    ensures
        r == text_lt(a@, b@),
{
    a < b
}

/// The order key of the 32-bit float with the given IEEE-754 bit pattern:
/// the magnitude's bits, negated if the sign bit is set.
pub open spec fn float_key(bits: u32) -> int {
    if bits >= 0x8000_0000 {
        -(bits - 0x8000_0000)
    } else {
        bits as int
    }
}

/// Of any two texts exactly one holds: the first sorts before the second,
/// they are equal, or the second sorts before the first.
pub proof fn text_order_is_total(a: Seq<char>, b: Seq<char>)
    ensures
        text_lt(a, b) || a == b || text_lt(b, a),
        !(text_lt(a, b) && a == b),
        !(text_lt(b, a) && a == b),
        !(text_lt(a, b) && text_lt(b, a)),
    decreases a.len(),
{
    if a.len() > 0 && b.len() > 0 {
        if a[0] == b[0] {
            text_order_is_total(a.drop_first(), b.drop_first());
            if a.drop_first() == b.drop_first() {
                assert(a =~= seq![a[0]] + a.drop_first());
                assert(b =~= seq![b[0]] + b.drop_first());
            }
        }
    } else if a.len() == 0 && b.len() == 0 {
        assert(a =~= b);
    }
}

/// The order of values is total: of any two values exactly one sorts before
/// the other, or they are equal.
pub proof fn value_order_is_total(a: Value, b: Value)
    ensures
        value_lt(a, b) || a == b || value_lt(b, a),
        !(value_lt(a, b) && a == b),
        !(value_lt(b, a) && a == b),
        !(value_lt(a, b) && value_lt(b, a)),
{
    match (a, b) {
        (Value::Text(x), Value::Text(y)) => {
            text_order_is_total(x, y);
        },
        _ => {},
    }
}

/// The order of texts is transitive.
pub proof fn text_order_is_transitive(a: Seq<char>, b: Seq<char>, c: Seq<char>)
    requires
        text_lt(a, b),
        text_lt(b, c),
    ensures
        text_lt(a, c),
    decreases a.len(),
{
    if a.len() > 0 && a[0] == b[0] && b[0] == c[0] {
        text_order_is_transitive(a.drop_first(), b.drop_first(), c.drop_first());
    }
}

/// The order of values is transitive.
pub proof fn value_order_is_transitive(a: Value, b: Value, c: Value)
    requires
        value_lt(a, b),
        value_lt(b, c),
    ensures
        value_lt(a, c),
{
    match (a, b, c) {
        (Value::Text(x), Value::Text(y), Value::Text(z)) => {
            text_order_is_transitive(x, y, z);
        },
        _ => {},
    }
}

impl DataType {
    /// The float value with the given IEEE-754 bit pattern. Both zeros give
    /// the same value. The bit pattern of a NaN is taken as it is: it sorts
    /// beyond the infinity of its sign.
    pub fn from_float_bits(bits: u32) -> (r: Self)
        ensures
            r@ == Value::Float(float_key(bits)),
    {
        if bits >= 0x8000_0000 {
            let magnitude: u32 = bits - 0x8000_0000;
            DataType::Float(0 - (magnitude as i32))
        } else {
            DataType::Float(bits as i32)
        }
    }

    /// Whether two values are the same value.
    pub fn same(&self, other: &DataType) -> (r: bool)
        ensures
            r == (self@ == other@),
    {
        match (self, other) {
            (DataType::Null, DataType::Null) => true,
            (DataType::Integer(a), DataType::Integer(b)) => *a == *b,
            (DataType::Text(a), DataType::Text(b)) => *a == *b,
            (DataType::Boolean(a), DataType::Boolean(b)) => *a == *b,
            (DataType::Float(a), DataType::Float(b)) => *a == *b,
            _ => false,
        }
    }

    /// Whether this value sorts strictly before the other.
    pub fn before(&self, other: &DataType) -> (r: bool)
        ensures
            r == value_lt(self@, other@),
    {
        match (self, other) {
            (DataType::Integer(a), DataType::Integer(b)) => *a < *b,
            (DataType::Text(a), DataType::Text(b)) => text_before(a, b),
            (DataType::Boolean(a), DataType::Boolean(b)) => !*a && *b,
            (DataType::Float(a), DataType::Float(b)) => *a < *b,
            _ => self.rank() < other.rank(),
        }
    }

    fn rank(&self) -> (r: u8)
        ensures
            r == variant_rank(self@),
    {
        match self {
            DataType::Null => 0,
            DataType::Integer(_) => 1,
            DataType::Text(_) => 2,
            DataType::Boolean(_) => 3,
            DataType::Float(_) => 4,
        }
    }
}

/// The six comparisons that a filter can make between two values.
pub enum Comparison {
    Equal,
    NotEqual,
    GreaterThan,
    LessThan,
    GreaterEqualThan,
    LessEqualThan,
}

impl Comparison {
    /// What the comparison says of two values under the total order.
    pub open spec fn holds(&self, a: Value, b: Value) -> bool {
        match *self {
            Comparison::Equal => a == b,
            Comparison::NotEqual => a != b,
            Comparison::GreaterThan => value_lt(b, a),
            Comparison::LessThan => value_lt(a, b),
            Comparison::GreaterEqualThan => a == b || value_lt(b, a),
            Comparison::LessEqualThan => a == b || value_lt(a, b),
        }
    }

    /// Compares two values as the comparison names.
    pub fn compare(&self, d1: &DataType, d2: &DataType) -> (r: bool)
        ensures
            r == self.holds(d1@, d2@),
    {
        match self {
            Comparison::Equal => d1.same(d2),
            Comparison::NotEqual => !d1.same(d2),
            Comparison::GreaterThan => d2.before(d1),
            Comparison::LessThan => d1.before(d2),
            Comparison::GreaterEqualThan => d1.same(d2) || d2.before(d1),
            Comparison::LessEqualThan => d1.same(d2) || d1.before(d2),
        }
    }
}

/// Each comparison is the negation of another: `NotEqual` of `Equal`,
/// `GreaterEqualThan` of `LessThan`, and `LessEqualThan` of `GreaterThan`.
pub proof fn comparisons_are_complementary(a: Value, b: Value)
    ensures
        Comparison::NotEqual.holds(a, b) == !Comparison::Equal.holds(a, b),
        Comparison::GreaterEqualThan.holds(a, b) == !Comparison::LessThan.holds(a, b),
        Comparison::LessEqualThan.holds(a, b) == !Comparison::GreaterThan.holds(a, b),
{
    value_order_is_total(a, b);
}

/// The values that a sequence of [`DataType`]s stands for, in order.
pub open spec fn values(data: Seq<DataType>) -> Seq<Value> {
    Seq::new(data.len(), |i: int| data[i]@)
}

/// Copies a list of values.
pub fn clone_values(data: &Vec<DataType>) -> (r: Vec<DataType>)
    ensures
        values(r@) == values(data@),
{
    let mut r: Vec<DataType> = Vec::new();
    let mut i: usize = 0;
    while i < data.len()
        invariant
            i <= data.len(),
            r.len() == i,
            forall|j: int| 0 <= j < i ==> r[j]@ == data[j]@,
        decreases data.len() - i,
    {
        r.push(data[i].clone());
        i += 1;
    }
    assert(values(r@) =~= values(data@));
    r
}

/// A single row of data: values by position, with no schema.
#[derive(Debug)]
pub struct Row {
    pub data: Vec<DataType>,
}

impl View for Row {
    type V = Seq<Value>;

    open spec fn view(&self) -> Seq<Value> {
        values(self.data@)
    }
}

impl Clone for Row {
    fn clone(&self) -> (r: Self)
        ensures
            r@ == self@,
    {
        Row { data: clone_values(&self.data) }
    }
}

impl From<Vec<DataType>> for Row {
    fn from(data: Vec<DataType>) -> (r: Self) {
        Row { data }
    }
}

impl FromSpecImpl<Vec<DataType>> for Row {
    open spec fn obeys_from_spec() -> bool {
        true
    }

    open spec fn from_spec(data: Vec<DataType>) -> Self {
        Row { data }
    }
}

impl std::ops::Index<usize> for Row {
    type Output = DataType;

    fn index(&self, i: usize) -> (r: &DataType)
        ensures
            r@ == self@[i as int],
    {
        &self.data[i]
    }
}

impl vstd::std_specs::core::IndexSpecImpl<usize> for Row {
    open spec fn index_req(&self, i: &usize) -> bool {
        *i < self@.len()
    }
}

impl Row {
    /// Overwrites the value at a position.
    pub fn put(&mut self, i: usize, value: DataType)
        requires
            i < old(self)@.len(),
        ensures
            final(self)@ == old(self)@.update(i as int, value@),
    {
        self.data.set(i, value);
        assert(final(self)@ =~= old(self)@.update(i as int, value@));
    }
}

/// A change to a multiset of rows.
pub struct Delta {
    /// True for an addition, false for a retraction.
    pub add: bool,
    pub row: Seq<Value>,
}

/// A row tagged as added or removed.
#[derive(Debug)]
pub enum RowUpdate {
    Add(Row),
    Remove(Row),
}

impl View for RowUpdate {
    type V = Delta;

    open spec fn view(&self) -> Delta {
        match *self {
            RowUpdate::Add(r) => Delta { add: true, row: r@ },
            RowUpdate::Remove(r) => Delta { add: false, row: r@ },
        }
    }
}

impl Clone for RowUpdate {
    fn clone(&self) -> (r: Self)
        ensures
            r@ == self@,
    {
        match self {
            RowUpdate::Add(row) => RowUpdate::Add(row.clone()),
            RowUpdate::Remove(row) => RowUpdate::Remove(row.clone()),
        }
    }
}

impl std::ops::Index<usize> for RowUpdate {
    type Output = DataType;

    fn index(&self, i: usize) -> (r: &DataType)
        ensures
            r@ == self@.row[i as int],
    {
        &self.row().data[i]
    }
}

impl vstd::std_specs::core::IndexSpecImpl<usize> for RowUpdate {
    open spec fn index_req(&self, i: &usize) -> bool {
        *i < self@.row.len()
    }
}

impl RowUpdate {
    /// The tagged row.
    pub fn row(&self) -> (r: &Row)
        ensures
            r@ == self@.row,
    {
        match self {
            RowUpdate::Add(r) => r,
            RowUpdate::Remove(r) => r,
        }
    }

    /// Whether this is an addition.
    pub fn is_add(&self) -> (r: bool)
        ensures
            r == self@.add,
    {
        match self {
            RowUpdate::Add(_) => true,
            RowUpdate::Remove(_) => false,
        }
    }

    /// Overwrites the value at a position of the tagged row; the tag stays.
    pub fn put(&mut self, i: usize, value: DataType)
        requires
            i < old(self)@.row.len(),
        ensures
            final(self)@.add == old(self)@.add,
            final(self)@.row == old(self)@.row.update(i as int, value@),
    {
        match self {
            RowUpdate::Add(r) => r.put(i, value),
            RowUpdate::Remove(r) => r.put(i, value),
        }
    }
}

/// The deltas that a list of row updates stands for, in order.
pub open spec fn deltas(updates: Seq<RowUpdate>) -> Seq<Delta> {
    Seq::new(updates.len(), |i: int| updates[i]@)
}

/// The same rows with the tags swapped: additions become retractions and
/// retractions additions.
pub open spec fn retracted(batch: Seq<Delta>) -> Seq<Delta> {
    Seq::new(batch.len(), |j: int| (Delta { add: !batch[j].add, row: batch[j].row }))
}

/// Copies a list of row updates.
pub fn clone_updates(updates: &Vec<RowUpdate>) -> (r: Vec<RowUpdate>)
    ensures
        deltas(r@) == deltas(updates@),
{
    let mut r: Vec<RowUpdate> = Vec::new();
    let mut i: usize = 0;
    while i < updates.len()
        invariant
            i <= updates.len(),
            r.len() == i,
            forall|j: int| 0 <= j < i ==> r[j]@ == updates[j]@,
        decreases updates.len() - i,
    {
        r.push(updates[i].clone());
        i += 1;
    }
    assert(deltas(r@) =~= deltas(updates@));
    r
}

/// A batch of row updates on its way from one worker to another.
#[derive(Debug)]
pub struct Updates {
    pub updates: Vec<RowUpdate>,
    pub source: usize,
    pub destination: usize,
}

impl Updates {
    /// The batch as a sequence of deltas.
    pub open spec fn batch(&self) -> Seq<Delta> {
        deltas(self.updates@)
    }
}

impl From<Vec<RowUpdate>> for Updates {
    fn from(u: Vec<RowUpdate>) -> (r: Self) {
        Updates { updates: u, source: 0, destination: 0 }
    }
}

impl FromSpecImpl<Vec<RowUpdate>> for Updates {
    open spec fn obeys_from_spec() -> bool {
        true
    }

    open spec fn from_spec(u: Vec<RowUpdate>) -> Self {
        Updates { updates: u, source: 0, destination: 0 }
    }
}

/// A position in a row.
pub type Column = usize;

/// One input of an operator: a column of the row, or a constant.
pub enum Source {
    Column(Column),
    Literal(DataType),
}

impl Source {
    /// Whether the source can be read from a row of the given width.
    pub open spec fn in_range(&self, width: nat) -> bool {
        match *self {
            Source::Column(c) => c < width,
            Source::Literal(_) => true,
        }
    }

    /// The value that the source selects from a row.
    pub open spec fn select(&self, row: Seq<Value>) -> Value
        recommends
            self.in_range(row.len()),
    {
        match *self {
            Source::Column(c) => row[c as int],
            Source::Literal(d) => d@,
        }
    }

    /// Whether the source can be read from the row.
    pub fn fits(&self, row: &Row) -> (r: bool)
        ensures
            r == self.in_range(row@.len()),
    {
        match self {
            Source::Column(c) => *c < row.data.len(),
            Source::Literal(_) => true,
        }
    }

    /// Reads the source from a row: a copy of the column or of the constant.
    pub fn resolve(&self, row: &Row) -> (r: DataType)
        requires
            self.in_range(row@.len()),
        ensures
            r@ == self.select(row@),
    {
        match self {
            Source::Column(c) => row.data[*c].clone(),
            Source::Literal(d) => d.clone(),
        }
    }
}

} // verus!
