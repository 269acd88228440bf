use vstd::prelude::*;
use crate::object_id::RecordId;

verus! {

/// One inspection grade of a restaurant.
#[derive(Debug, Clone)]
pub struct Grade {
    /// When the grade was given, in milliseconds since the Unix epoch.
    pub date: i64,
    /// The grade's code.
    pub grade: String,
    pub score: i32,
}

/// Where a restaurant stands. An empty text field or an empty `coord` counts
/// as absent.
#[derive(Debug, Clone, Default)]
pub struct Address {
    pub building: String,
    /// Longitude then latitude, each held as the bit pattern of an IEEE 754
    /// double.
    pub coord: Vec<u64>,
    pub street: String,
    pub zipcode: String,
}

/// The one stored entity. `id` is unset until storage assigns one.
#[derive(Debug, Clone, Default)]
pub struct Restaurant {
    pub id: Option<RecordId>,
    pub address: Option<Address>,
    pub borough: String,
    pub cuisine: String,
    pub grades: Vec<Grade>,
    pub name: String,
    pub restaurant_id: String,
}

pub struct GradeView {
    pub date: i64,
    pub grade: Seq<char>,
    pub score: i32,
}

pub struct AddressView {
    pub building: Seq<char>,
    pub coord: Seq<u64>,
    pub street: Seq<char>,
    pub zipcode: Seq<char>,
}

pub struct RestaurantView {
    pub id: Option<Seq<u8>>,
    pub address: Option<AddressView>,
    pub borough: Seq<char>,
    pub cuisine: Seq<char>,
    pub grades: Seq<GradeView>,
    pub name: Seq<char>,
    pub restaurant_id: Seq<char>,
}

impl View for Grade {
    type V = GradeView;

    open spec fn view(&self) -> GradeView {
        GradeView { date: self.date, grade: self.grade@, score: self.score }
    }
}

impl View for Address {
    type V = AddressView;

    open spec fn view(&self) -> AddressView {
        AddressView {
            building: self.building@,
            coord: self.coord@,
            street: self.street@,
            zipcode: self.zipcode@,
        }
    }
}

pub open spec fn grades_view(g: Seq<Grade>) -> Seq<GradeView> {
    g.map_values(|x: Grade| x@)
}

pub open spec fn address_view(a: Option<Address>) -> Option<AddressView> {
    match a {
        Some(x) => Some(x@),
        None => None,
    }
}

pub open spec fn id_view(id: Option<RecordId>) -> Option<Seq<u8>> {
    match id {
        Some(x) => Some(x@),
        None => None,
    }
}

impl View for Restaurant {
    type V = RestaurantView;

    open spec fn view(&self) -> RestaurantView {
        RestaurantView {
            id: id_view(self.id),
            address: address_view(self.address),
            borough: self.borough@,
            cuisine: self.cuisine@,
            grades: grades_view(self.grades@),
            name: self.name@,
            restaurant_id: self.restaurant_id@,
        }
    }
}

/// The record as storage keeps it once it carries the identifier `id`.
pub open spec fn with_id(r: RestaurantView, id: Seq<u8>) -> RestaurantView {
    RestaurantView { id: Some(id), ..r }
}

fn copy_u64s(v: &Vec<u64>) -> (r: Vec<u64>)
    ensures
        r@ == v@,
{
    let mut out: Vec<u64> = Vec::new();
    let mut i: usize = 0;
    while i < v.len()
        invariant
            0 <= i <= v@.len(),
            out@ == v@.subrange(0, i as int),
        decreases v@.len() - i,
    {
        out.push(v[i]);
        i = i + 1;
        assert(out@ =~= v@.subrange(0, i as int));
    }
    assert(v@.subrange(0, v@.len() as int) =~= v@);
    out
}

fn same_u64s(a: &Vec<u64>, b: &Vec<u64>) -> (r: bool)
    ensures
        r == (a@ == b@),
{
    if a.len() != b.len() {
        return false;
    }
    let mut i: usize = 0;
    while i < a.len()
        invariant
            0 <= i <= a@.len(),
            a@.len() == b@.len(),
            forall|j: int| 0 <= j < i ==> a@[j] == b@[j],
        decreases a@.len() - i,
    {
        if a[i] != b[i] {
            return false;
        }
        i = i + 1;
    }
    assert(a@ =~= b@);
    true
}

impl Grade {
    /// A copy with the same content.
    pub fn copy(&self) -> (r: Grade)
        ensures
            r@ == self@,
    {
        Grade { date: self.date, grade: self.grade.clone(), score: self.score }
    }

    /// Whether two grades have the same content.
    pub fn same(&self, other: &Grade) -> (r: bool)
        ensures
            r == (self@ == other@),
    {
        self.date == other.date && self.score == other.score && self.grade == other.grade
    }
}

fn copy_grades(v: &Vec<Grade>) -> (r: Vec<Grade>)
    ensures
        grades_view(r@) == grades_view(v@),
{
    let mut out: Vec<Grade> = Vec::new();
    let mut i: usize = 0;
    while i < v.len()
        invariant
            0 <= i <= v@.len(),
            out@.len() == i,
            forall|j: int| 0 <= j < i ==> (#[trigger] out@[j])@ == v@[j]@,
        decreases v@.len() - i,
    {
        out.push(v[i].copy());
        i = i + 1;
    }
    assert(grades_view(out@) =~= grades_view(v@));
    out
}

fn same_grades(a: &Vec<Grade>, b: &Vec<Grade>) -> (r: bool)
    ensures
        r == (grades_view(a@) == grades_view(b@)),
{
    if a.len() != b.len() {
        assert(grades_view(a@).len() != grades_view(b@).len());
        return false;
    }
    let mut i: usize = 0;
    while i < a.len()
        invariant
            0 <= i <= a@.len(),
            a@.len() == b@.len(),
            forall|j: int| 0 <= j < i ==> a@[j]@ == b@[j]@,
        decreases a@.len() - i,
    {
        if !a[i].same(&b[i]) {
            assert(grades_view(a@)[i as int] != grades_view(b@)[i as int]);
            return false;
        }
        i = i + 1;
    }
    assert(grades_view(a@) =~= grades_view(b@));
    true
}

impl Address {
    /// A copy with the same content.
    pub fn copy(&self) -> (r: Address)
        ensures
            r@ == self@,
    {
        Address {
            building: self.building.clone(),
            coord: copy_u64s(&self.coord),
            street: self.street.clone(),
            zipcode: self.zipcode.clone(),
        }
    }

    /// Whether two addresses have the same content.
    pub fn same(&self, other: &Address) -> (r: bool)
        ensures
            r == (self@ == other@),
    {
        self.building == other.building && self.street == other.street && self.zipcode
            == other.zipcode && same_u64s(&self.coord, &other.coord)
    }
}

fn copy_address(a: &Option<Address>) -> (r: Option<Address>)
    ensures
        address_view(r) == address_view(*a),
{
    match a {
        Some(x) => Some(x.copy()),
        None => None,
    }
}

fn same_address(a: &Option<Address>, b: &Option<Address>) -> (r: bool)
    ensures
        r == (address_view(*a) == address_view(*b)),
{
    match (a, b) {
        (Some(x), Some(y)) => x.same(y),
        (None, None) => true,
        _ => false,
    }
}

fn same_id(a: &Option<RecordId>, b: &Option<RecordId>) -> (r: bool)
    ensures
        r == (id_view(*a) == id_view(*b)),
{
    match (a, b) {
        (Some(x), Some(y)) => x.same(y),
        (None, None) => true,
        _ => false,
    }
}

impl Restaurant {
    /// A copy with the same content.
    pub fn copy(&self) -> (r: Restaurant)
        ensures
            r@ == self@,
    {
        Restaurant {
            id: self.id,
            address: copy_address(&self.address),
            borough: self.borough.clone(),
            cuisine: self.cuisine.clone(),
            grades: copy_grades(&self.grades),
            name: self.name.clone(),
            restaurant_id: self.restaurant_id.clone(),
        }
    }

    /// Whether two records have the same content, identifier included.
    pub fn same(&self, other: &Restaurant) -> (r: bool)
        ensures
            r == (self@ == other@),
    {
        same_id(&self.id, &other.id) && same_address(&self.address, &other.address)
            && self.borough == other.borough && self.cuisine == other.cuisine && same_grades(
            &self.grades,
            &other.grades,
        ) && self.name == other.name && self.restaurant_id == other.restaurant_id
    }
}

/// A partial update: each field that is `Some` is overwritten, every other
/// field keeps its value. The identifier cannot be named.
#[derive(Debug, Clone, Default)]
pub struct RestaurantPatch {
    pub address: Option<Option<Address>>,
    pub borough: Option<String>,
    pub cuisine: Option<String>,
    pub grades: Option<Vec<Grade>>,
    pub name: Option<String>,
    pub restaurant_id: Option<String>,
}

pub struct PatchView {
    pub address: Option<Option<AddressView>>,
    pub borough: Option<Seq<char>>,
    pub cuisine: Option<Seq<char>>,
    pub grades: Option<Seq<GradeView>>,
    pub name: Option<Seq<char>>,
    pub restaurant_id: Option<Seq<char>>,
}

pub open spec fn text_view(t: Option<String>) -> Option<Seq<char>> {
    match t {
        Some(x) => Some(x@),
        None => None,
    }
}

impl View for RestaurantPatch {
    type V = PatchView;

    open spec fn view(&self) -> PatchView {
        PatchView {
            address: match self.address {
                Some(a) => Some(address_view(a)),
                None => None,
            },
            borough: text_view(self.borough),
            cuisine: text_view(self.cuisine),
            grades: match self.grades {
                Some(g) => Some(grades_view(g@)),
                None => None,
            },
            name: text_view(self.name),
            restaurant_id: text_view(self.restaurant_id),
        }
    }
}

/// The value a field takes under a patch entry.
pub open spec fn merged<T>(entry: Option<T>, current: T) -> T {
    match entry {
        Some(v) => v,
        None => current,
    }
}

/// The record after a field-level merge of `p` into `r`.
pub open spec fn apply_patch(r: RestaurantView, p: PatchView) -> RestaurantView {
    RestaurantView {
        id: r.id,
        address: merged(p.address, r.address),
        borough: merged(p.borough, r.borough),
        cuisine: merged(p.cuisine, r.cuisine),
        grades: merged(p.grades, r.grades),
        name: merged(p.name, r.name),
        restaurant_id: merged(p.restaurant_id, r.restaurant_id),
    }
}

/// The patch that sets the name alone.
pub open spec fn name_only(name: Seq<char>) -> PatchView {
    PatchView {
        address: None,
        borough: None,
        cuisine: None,
        grades: None,
        name: Some(name),
        restaurant_id: None,
    }
}

fn merged_text(entry: &Option<String>, current: &String) -> (r: String)
    ensures
        r@ == merged(text_view(*entry), current@),
{
    match entry {
        Some(v) => v.clone(),
        None => current.clone(),
    }
}

impl RestaurantPatch {
    /// The patch that changes nothing.
    pub fn new() -> (r: RestaurantPatch)
        ensures
            r.address is None,
            r.borough is None,
            r.cuisine is None,
            r.grades is None,
            r.name is None,
            r.restaurant_id is None,
    {
        RestaurantPatch {
            address: None,
            borough: None,
            cuisine: None,
            grades: None,
            name: None,
            restaurant_id: None,
        }
    }

    /// `r` with this patch merged in; the identifier is kept.
    pub fn apply(&self, r: &Restaurant) -> (out: Restaurant)
        ensures
            out@ == apply_patch(r@, self@),
    {
        Restaurant {
            id: r.id,
            address: match &self.address {
                Some(a) => copy_address(a),
                None => copy_address(&r.address),
            },
            borough: merged_text(&self.borough, &r.borough),
            cuisine: merged_text(&self.cuisine, &r.cuisine),
            grades: match &self.grades {
                Some(g) => copy_grades(g),
                None => copy_grades(&r.grades),
            },
            name: merged_text(&self.name, &r.name),
            restaurant_id: merged_text(&self.restaurant_id, &r.restaurant_id),
        }
    }
}

} // verus!
