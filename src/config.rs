//! View configuration: the full configuration of a view, the partial patch
//! that changes it, and their conversions to and from the wire form.

use std::collections::HashMap;

use vstd::prelude::*;

use crate::error::{ClientError, ClientResult};
use crate::proto;

verus! {

/// One value that a filter compares a column against.
#[derive(Clone, Debug, PartialEq)]
pub enum Scalar {
    Null,
    Bool(bool),
    Integer(i64),
    String(String),
}

/// The right-hand side of a filter: one value, or a list (for `in`).
#[derive(Clone, Debug, PartialEq)]
pub enum FilterTerm {
    Scalar(Scalar),
    Array(Vec<Scalar>),
}

/// A filter: column name, operator, and the term compared against.
#[derive(Clone, Debug, PartialEq)]
pub struct Filter(pub String, pub String, pub FilterTerm);

/// The direction of a sort.
#[derive(Clone, Copy, Debug, PartialEq, Eq, Structural)]
pub enum SortDir {
    Unsorted,
    Asc,
    Desc,
    ColAsc,
    ColDesc,
    AscAbs,
    DescAbs,
    ColAscAbs,
    ColDescAbs,
}

/// A sort: column name and direction.
#[derive(Clone, Debug, PartialEq)]
pub struct Sort(pub String, pub SortDir);

/// How a column is aggregated when the view is grouped.
#[derive(Clone, Debug)]
pub enum Aggregate {
    SingleAggregate(String),
    MultiAggregate(String, String),
}

/// Computed columns: alias to expression text.
#[derive(Clone, Debug, PartialEq)]
pub struct Expressions(pub HashMap<String, String>);

/// The full configuration of a view: grouping, splitting, visible columns
/// (an empty slot stands for a column left out), filters, sorts, computed
/// columns and aggregates.
#[derive(Clone, Debug, PartialEq)]
pub struct ViewConfig {
    pub group_by: Vec<String>,
    pub split_by: Vec<String>,
    pub columns: Vec<Option<String>>,
    pub filter: Vec<Filter>,
    pub sort: Vec<Sort>,
    pub expressions: Expressions,
    pub aggregates: HashMap<String, Aggregate>,
}

/// A partial configuration: each field that is `Some` replaces the
/// corresponding field of a `ViewConfig`, each `None` leaves it alone.
#[derive(Clone, Debug, PartialEq)]
pub struct ViewConfigUpdate {
    pub group_by: Option<Vec<String>>,
    pub split_by: Option<Vec<String>>,
    pub columns: Option<Vec<Option<String>>>,
    pub filter: Option<Vec<Filter>>,
    pub sort: Option<Vec<Sort>>,
    pub expressions: Option<Expressions>,
    pub aggregates: Option<HashMap<String, Aggregate>>,
}

/// The contents of a scalar, text as its characters.
pub enum ScalarView {
    Null,
    Bool(bool),
    Integer(i64),
    Text(Seq<char>),
}

/// The contents of a filter term.
pub enum FilterTermView {
    Scalar(ScalarView),
    Array(Seq<ScalarView>),
}

/// The contents of an aggregate choice.
pub enum AggregateView {
    Single(Seq<char>),
    Multi(Seq<char>, Seq<char>),
}

impl DeepView for Scalar {
    type V = ScalarView;

    open spec fn deep_view(&self) -> ScalarView {
        match self {
            Scalar::Null => ScalarView::Null,
            Scalar::Bool(b) => ScalarView::Bool(*b),
            Scalar::Integer(i) => ScalarView::Integer(*i),
            Scalar::String(s) => ScalarView::Text(s@),
        }
    }
}

impl DeepView for FilterTerm {
    type V = FilterTermView;

    open spec fn deep_view(&self) -> FilterTermView {
        match self {
            FilterTerm::Scalar(s) => FilterTermView::Scalar(s.deep_view()),
            FilterTerm::Array(v) => FilterTermView::Array(v.deep_view()),
        }
    }
}

impl DeepView for Filter {
    type V = (Seq<char>, Seq<char>, FilterTermView);

    open spec fn deep_view(&self) -> (Seq<char>, Seq<char>, FilterTermView) {
        (self.0@, self.1@, self.2.deep_view())
    }
}

impl DeepView for Sort {
    type V = (Seq<char>, SortDir);

    open spec fn deep_view(&self) -> (Seq<char>, SortDir) {
        (self.0@, self.1)
    }
}

impl DeepView for Aggregate {
    type V = AggregateView;

    open spec fn deep_view(&self) -> AggregateView {
        match self {
            Aggregate::SingleAggregate(a) => AggregateView::Single(a@),
            Aggregate::MultiAggregate(a, b) => AggregateView::Multi(a@, b@),
        }
    }
}

impl DeepView for Expressions {
    type V = Map<Seq<char>, Seq<char>>;

    open spec fn deep_view(&self) -> Map<Seq<char>, Seq<char>> {
        self.0.deep_view()
    }
}

impl PartialEq for Aggregate {
    fn eq(&self, other: &Aggregate) -> (r: bool) {
        match (self, other) {
            (Aggregate::SingleAggregate(a), Aggregate::SingleAggregate(b)) => *a == *b,
            (Aggregate::MultiAggregate(a1, a2), Aggregate::MultiAggregate(b1, b2)) => *a1 == *b1 && *a2 == *b2,
            _ => false,
        }
    }
}

impl vstd::std_specs::cmp::PartialEqSpecImpl for Aggregate {
    open spec fn obeys_eq_spec() -> bool {
        true
    }

    open spec fn eq_spec(&self, other: &Aggregate) -> bool {
        self.deep_view() == other.deep_view()
    }
}

/// Values whose contents can be compared.
pub trait SameContent: DeepView + Sized {
    fn same_content(&self, other: &Self) -> (r: bool)
        ensures
            r == (self.deep_view() == other.deep_view()),
    ;
}

impl SameContent for String {
    fn same_content(&self, other: &Self) -> (r: bool) {
        *self == *other
    }
}

impl<T: SameContent> SameContent for Option<T> {
    fn same_content(&self, other: &Self) -> (r: bool) {
        match (self, other) {
            (Some(a), Some(b)) => a.same_content(b),
            (None, None) => true,
            _ => false,
        }
    }
}

impl<T: SameContent> SameContent for Vec<T> {
    fn same_content(&self, other: &Self) -> (r: bool) {
        if self.len() != other.len() {
            assert(self.deep_view().len() != other.deep_view().len());
            return false;
        }
        let mut i: usize = 0;
        while i < self.len()
            invariant
                self@.len() == other@.len(),
                i <= self@.len(),
                forall|j: int| 0 <= j < i ==> #[trigger] self@[j].deep_view() == other@[j].deep_view(),
            decreases self@.len() - i,
        {
            if !self[i].same_content(&other[i]) {
                assert(self.deep_view()[i as int] != other.deep_view()[i as int]);
                return false;
            }
            i = i + 1;
        }
        assert(self.deep_view() =~= other.deep_view());
        true
    }
}

impl SameContent for Scalar {
    fn same_content(&self, other: &Self) -> (r: bool) {
        match (self, other) {
            (Scalar::Null, Scalar::Null) => true,
            (Scalar::Bool(a), Scalar::Bool(b)) => *a == *b,
            (Scalar::Integer(a), Scalar::Integer(b)) => *a == *b,
            (Scalar::String(a), Scalar::String(b)) => a.same_content(b),
            _ => false,
        }
    }
}

impl SameContent for FilterTerm {
    fn same_content(&self, other: &Self) -> (r: bool) {
        match (self, other) {
            (FilterTerm::Scalar(a), FilterTerm::Scalar(b)) => a.same_content(b),
            (FilterTerm::Array(a), FilterTerm::Array(b)) => a.same_content(b),
            _ => false,
        }
    }
}

impl SameContent for Filter {
    fn same_content(&self, other: &Self) -> (r: bool) {
        self.0.same_content(&other.0) && self.1.same_content(&other.1) && self.2.same_content(&other.2)
    }
}

impl SameContent for Sort {
    fn same_content(&self, other: &Self) -> (r: bool) {
        self.0.same_content(&other.0) && self.1 == other.1
    }
}

/// Relies on `PartialEq for HashMap`: two maps are equal when they hold the
/// same keys, each with an equal value; `String` compares by characters.
#[verifier::external_body]
fn same_expressions(a: &HashMap<String, String>, b: &HashMap<String, String>) -> (r: bool)
    ensures
        r == (a.deep_view() == b.deep_view()),
{
    a == b
}

/// Relies on `PartialEq for HashMap`: two maps are equal when they hold the
/// same keys, each with an equal value; the values compare with
/// `Aggregate`'s own `==`, which compares contents.
#[verifier::external_body]
fn same_aggregates(a: &HashMap<String, Aggregate>, b: &HashMap<String, Aggregate>) -> (r: bool)
    ensures
        r == (a.deep_view() == b.deep_view()),
{
    a == b
}

impl SameContent for Expressions {
    fn same_content(&self, other: &Self) -> (r: bool) {
        same_expressions(&self.0, &other.0)
    }
}

impl SameContent for HashMap<String, Aggregate> {
    fn same_content(&self, other: &Self) -> (r: bool) {
        same_aggregates(self, other)
    }
}

/// Whether two configurations hold the same contents, field by field.
pub open spec fn same_config(a: ViewConfig, b: ViewConfig) -> bool {
    &&& a.group_by.deep_view() == b.group_by.deep_view()
    &&& a.split_by.deep_view() == b.split_by.deep_view()
    &&& a.columns.deep_view() == b.columns.deep_view()
    &&& a.filter.deep_view() == b.filter.deep_view()
    &&& a.sort.deep_view() == b.sort.deep_view()
    &&& a.expressions.deep_view() == b.expressions.deep_view()
    &&& a.aggregates.deep_view() == b.aggregates.deep_view()
}

/// The value of a field after a patch: the patch's value if it has one.
pub open spec fn patched<T>(cur: T, upd: Option<T>) -> T {
    match upd {
        Some(v) => v,
        None => cur,
    }
}

/// Whether some string of `v` spells `name`.
pub open spec fn names(v: Seq<String>, name: Seq<char>) -> bool {
    exists|i: int| 0 <= i < v.len() && #[trigger] v[i]@ == name
}

/// Whether a column slot holds the name `name`.
pub open spec fn is_named(slot: Option<String>, name: Seq<char>) -> bool {
    match slot {
        Some(c) => c@ == name,
        None => false,
    }
}

/// The names of the visible columns, the empty slots left out.
pub open spec fn present_columns(s: Seq<Option<String>>) -> Seq<String>
    decreases s.len(),
{
    if s.len() == 0 {
        Seq::empty()
    } else {
        let rest = present_columns(s.drop_last());
        match s.last() {
            Some(c) => rest.push(c),
            None => rest,
        }
    }
}

impl Default for ViewConfig {
    fn default() -> (r: ViewConfig)
        ensures
            r.is_default_except_expressions(),
            r.expressions.0@ == Map::<String, String>::empty(),
    {
        ViewConfig {
            group_by: Vec::new(),
            split_by: Vec::new(),
            columns: Vec::new(),
            filter: Vec::new(),
            sort: Vec::new(),
            expressions: Expressions(HashMap::new()),
            aggregates: HashMap::new(),
        }
    }
}

impl Default for ViewConfigUpdate {
    fn default() -> (r: ViewConfigUpdate)
        ensures
            r.is_empty(),
    {
        ViewConfigUpdate {
            group_by: None,
            split_by: None,
            columns: None,
            filter: None,
            sort: None,
            expressions: None,
            aggregates: None,
        }
    }
}

impl ViewConfigUpdate {
    /// A patch that sets nothing.
    pub open spec fn is_empty(&self) -> bool {
        &&& self.group_by is None
        &&& self.split_by is None
        &&& self.columns is None
        &&& self.filter is None
        &&& self.sort is None
        &&& self.expressions is None
        &&& self.aggregates is None
    }
}

impl ViewConfig {
    /// Every field but the expressions holds its default, empty value.
    pub open spec fn is_default_except_expressions(&self) -> bool {
        &&& self.group_by@.len() == 0
        &&& self.split_by@.len() == 0
        &&& self.columns@.len() == 0
        &&& self.filter@.len() == 0
        &&& self.sort@.len() == 0
        &&& self.aggregates@ == Map::<String, Aggregate>::empty()
    }

    /// What `apply_update` makes of `self` under `update`.
    pub open spec fn patched_by(self, update: ViewConfigUpdate) -> ViewConfig {
        ViewConfig {
            group_by: patched(self.group_by, update.group_by),
            split_by: patched(self.split_by, update.split_by),
            columns: patched(self.columns, update.columns),
            filter: patched(self.filter, update.filter),
            sort: patched(self.sort, update.sort),
            expressions: patched(self.expressions, update.expressions),
            aggregates: patched(self.aggregates, update.aggregates),
        }
    }

    /// Whether the column or expression `name` is referenced by any part of
    /// the configuration.
    pub open spec fn uses_column(&self, name: Seq<char>) -> bool {
        ||| names(self.group_by@, name)
        ||| names(self.split_by@, name)
        ||| exists|i: int| 0 <= i < self.sort@.len() && #[trigger] self.sort@[i].0@ == name
        ||| exists|i: int| 0 <= i < self.filter@.len() && #[trigger] self.filter@[i].0@ == name
        ||| exists|i: int| 0 <= i < self.columns@.len() && is_named(#[trigger] self.columns@[i], name)
    }

    fn _apply<T: SameContent>(field: &mut T, update: Option<T>) -> (changed: bool)
        ensures
            *final(field) == patched(*old(field), update),
            changed == (final(field).deep_view() != old(field).deep_view()),
    {
        match update {
            None => false,
            Some(update) => {
                let changed = !field.same_content(&update);
                *field = update;
                changed
            },
        }
    }

    /// Returns the configuration to its defaults; the expressions are kept
    /// unless `reset_expressions` is set.
    pub fn reset(&mut self, reset_expressions: bool)
        ensures
            final(self).is_default_except_expressions(),
            reset_expressions ==> final(self).expressions.0@ == Map::<String, String>::empty(),
            !reset_expressions ==> final(self).expressions == old(self).expressions,
    {
        let mut config = Self::default();
        if !reset_expressions {
            std::mem::swap(&mut config.expressions, &mut self.expressions);
        }
        std::mem::swap(self, &mut config);
    }

    /// Apply `ViewConfigUpdate` to a `ViewConfig`, ignoring any fields in
    /// `update` which were unset. Reports whether the configuration's
    /// contents changed.
    pub fn apply_update(&mut self, update: ViewConfigUpdate) -> (changed: bool)
        ensures
            *final(self) == old(self).patched_by(update),
            changed == !same_config(*old(self), *final(self)),
    {
        let mut changed = false;
        changed = Self::_apply(&mut self.group_by, update.group_by) || changed;
        changed = Self::_apply(&mut self.split_by, update.split_by) || changed;
        changed = Self::_apply(&mut self.columns, update.columns) || changed;
        changed = Self::_apply(&mut self.filter, update.filter) || changed;
        changed = Self::_apply(&mut self.sort, update.sort) || changed;
        changed = Self::_apply(&mut self.aggregates, update.aggregates) || changed;
        changed = Self::_apply(&mut self.expressions, update.expressions) || changed;
        changed
    }

    pub fn is_aggregated(&self) -> (r: bool)
        ensures
            r == (self.group_by@.len() > 0),
    {
        !self.group_by.is_empty()
    }

    pub fn is_column_expression_in_use(&self, name: &str) -> (r: bool)
        ensures
            r == self.uses_column(name@),
    {
        let name = name.to_string();
        contains_name(&self.group_by, &name) || contains_name(&self.split_by, &name)
            || sorts_on(&self.sort, &name) || filters_on(&self.filter, &name)
            || shows_column(&self.columns, &name)
    }
}

fn contains_name(v: &Vec<String>, name: &String) -> (r: bool)
    ensures
        r == names(v@, name@),
{
    let mut i: usize = 0;
    while i < v.len()
        invariant
            i <= v@.len(),
            forall|j: int| 0 <= j < i ==> #[trigger] v@[j]@ != name@,
        decreases v@.len() - i,
    {
        if v[i] == *name {
            return true;
        }
        i = i + 1;
    }
    false
}

fn sorts_on(v: &Vec<Sort>, name: &String) -> (r: bool)
    ensures
        r == exists|i: int| 0 <= i < v@.len() && #[trigger] v@[i].0@ == name@,
{
    let mut i: usize = 0;
    while i < v.len()
        invariant
            i <= v@.len(),
            forall|j: int| 0 <= j < i ==> #[trigger] v@[j].0@ != name@,
        decreases v@.len() - i,
    {
        if v[i].0 == *name {
            return true;
        }
        i = i + 1;
    }
    false
}

fn filters_on(v: &Vec<Filter>, name: &String) -> (r: bool)
    ensures
        r == exists|i: int| 0 <= i < v@.len() && #[trigger] v@[i].0@ == name@,
{
    let mut i: usize = 0;
    while i < v.len()
        invariant
            i <= v@.len(),
            forall|j: int| 0 <= j < i ==> #[trigger] v@[j].0@ != name@,
        decreases v@.len() - i,
    {
        if v[i].0 == *name {
            return true;
        }
        i = i + 1;
    }
    false
}

fn shows_column(v: &Vec<Option<String>>, name: &String) -> (r: bool)
    ensures
        r == exists|i: int| 0 <= i < v@.len() && is_named(#[trigger] v@[i], name@),
{
    let mut i: usize = 0;
    while i < v.len()
        invariant
            i <= v@.len(),
            forall|j: int| 0 <= j < i ==> !is_named(#[trigger] v@[j], name@),
        decreases v@.len() - i,
    {
        match &v[i] {
            Some(c) => {
                if *c == *name {
                    return true;
                }
            },
            None => {},
        }
        i = i + 1;
    }
    false
}

/// The items of an optional list; none when it is absent.
pub open spec fn seq_or_empty<T>(v: Option<Vec<T>>) -> Seq<T> {
    match v {
        Some(v) => v@,
        None => Seq::empty(),
    }
}

/// Whether `m` is the wire form of the patch `u`: absent lists and maps
/// travel empty, absent visible columns stay absent, and the empty column
/// slots are left out.
pub open spec fn is_message_of(u: ViewConfigUpdate, m: proto::ViewConfig) -> bool {
    &&& m.group_by@ == seq_or_empty(u.group_by)
    &&& m.split_by@ == seq_or_empty(u.split_by)
    &&& m.filter@ == seq_or_empty(u.filter)
    &&& m.sort@ == seq_or_empty(u.sort)
    &&& m.expressions@ == match u.expressions {
        Some(e) => e.0@,
        None => Map::<String, String>::empty(),
    }
    &&& m.aggregates@ == match u.aggregates {
        Some(a) => a@,
        None => Map::<String, Aggregate>::empty(),
    }
    &&& match u.columns {
        None => m.columns is None,
        Some(c) => match m.columns {
            Some(proto::ColumnsUpdate::Columns(v)) => v@ == present_columns(c@),
            _ => false,
        },
    }
}

fn vec_or_empty<T>(v: Option<Vec<T>>) -> (r: Vec<T>)
    ensures
        r@ == seq_or_empty(v),
{
    match v {
        Some(v) => v,
        None => Vec::new(),
    }
}

fn present(cols: &Vec<Option<String>>) -> (r: Vec<String>)
    ensures
        r@ == present_columns(cols@),
{
    let mut r: Vec<String> = Vec::new();
    let mut i: usize = 0;
    while i < cols.len()
        invariant
            i <= cols@.len(),
            r@ == present_columns(cols@.subrange(0, i as int)),
        decreases cols@.len() - i,
    {
        assert(cols@.subrange(0, i + 1).drop_last() =~= cols@.subrange(0, i as int));
        match &cols[i] {
            Some(c) => r.push(c.clone()),
            None => {},
        }
        i = i + 1;
    }
    assert(cols@.subrange(0, cols@.len() as int) =~= cols@);
    r
}

fn wrap_columns(cols: &Vec<String>) -> (r: Vec<Option<String>>)
    ensures
        r@.len() == cols@.len(),
        forall|i: int| 0 <= i < cols@.len() ==> #[trigger] r@[i] == Some(cols@[i]),
{
    let mut r: Vec<Option<String>> = Vec::new();
    let mut i: usize = 0;
    while i < cols.len()
        invariant
            i <= cols@.len(),
            r@.len() == i,
            forall|j: int| 0 <= j < i ==> #[trigger] r@[j] == Some(cols@[j]),
        decreases cols@.len() - i,
    {
        r.push(Some(cols[i].clone()));
        i = i + 1;
    }
    r
}

impl ViewConfigUpdate {
    /// The wire form of this patch.
    pub fn to_message(self) -> (r: proto::ViewConfig)
        ensures
            is_message_of(self, r),
    {
        let columns = match &self.columns {
            None => None,
            Some(c) => Some(proto::ColumnsUpdate::Columns(present(c))),
        };
        let expressions = match self.expressions {
            Some(e) => e.0,
            None => HashMap::new(),
        };
        let aggregates = match self.aggregates {
            Some(a) => a,
            None => HashMap::new(),
        };
        proto::ViewConfig {
            group_by: vec_or_empty(self.group_by),
            split_by: vec_or_empty(self.split_by),
            columns,
            filter: vec_or_empty(self.filter),
            sort: vec_or_empty(self.sort),
            expressions,
            aggregates,
        }
    }
}

/// The patch that sets every field of a configuration.
pub open spec fn full_update(v: ViewConfig) -> ViewConfigUpdate {
    ViewConfigUpdate {
        group_by: Some(v.group_by),
        split_by: Some(v.split_by),
        columns: Some(v.columns),
        filter: Some(v.filter),
        sort: Some(v.sort),
        expressions: Some(v.expressions),
        aggregates: Some(v.aggregates),
    }
}

impl From<ViewConfig> for ViewConfigUpdate {
    fn from(value: ViewConfig) -> ViewConfigUpdate {
        ViewConfigUpdate {
            group_by: Some(value.group_by),
            split_by: Some(value.split_by),
            columns: Some(value.columns),
            filter: Some(value.filter),
            sort: Some(value.sort),
            expressions: Some(value.expressions),
            aggregates: Some(value.aggregates),
        }
    }
}

impl vstd::std_specs::convert::FromSpecImpl<ViewConfig> for ViewConfigUpdate {
    open spec fn obeys_from_spec() -> bool {
        true
    }

    open spec fn from_spec(v: ViewConfig) -> ViewConfigUpdate {
        full_update(v)
    }
}

/// Whether `r` is what reading the reported configuration `value` gives:
/// a configuration with the same fields, each visible column in a slot of
/// its own, or `Malformed` when the report names no visible columns.
pub open spec fn is_config_of(value: proto::ViewConfig, r: ClientResult<ViewConfig>) -> bool {
    &&& (r is Ok <==> value.columns matches Some(proto::ColumnsUpdate::Columns(_)))
    &&& (r is Err ==> r == Err::<ViewConfig, ClientError>(ClientError::Malformed))
    &&& (r matches Ok(c) ==> {
        &&& c.group_by == value.group_by
        &&& c.split_by == value.split_by
        &&& c.filter == value.filter
        &&& c.sort == value.sort
        &&& c.expressions.0 == value.expressions
        &&& c.aggregates == value.aggregates
        &&& value.columns matches Some(proto::ColumnsUpdate::Columns(x))
        &&& c.columns@.len() == x@.len()
        &&& forall|i: int| 0 <= i < x@.len() ==> #[trigger] c.columns@[i] == Some(x@[i])
    })
}

impl ViewConfig {
    /// Reads a configuration as the engine reports it. It must name its
    /// visible columns; a report without them is malformed.
    pub fn from_message(value: proto::ViewConfig) -> (r: ClientResult<ViewConfig>)
        ensures
            is_config_of(value, r),
    {
        let columns = match &value.columns {
            Some(proto::ColumnsUpdate::Columns(x)) => wrap_columns(x),
            _ => return Err(ClientError::Malformed),
        };
        Ok(
            ViewConfig {
                group_by: value.group_by,
                split_by: value.split_by,
                columns,
                filter: value.filter,
                sort: value.sort,
                expressions: Expressions(value.expressions),
                aggregates: value.aggregates,
            },
        )
    }
}

} // verus!
