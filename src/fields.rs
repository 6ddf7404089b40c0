//! Field registration: which builder entry points a table of fields exposes,
//! and the search field that each one writes.
use vstd::prelude::*;

verus! {

/// Whether a registered field can be queried.
#[derive(Clone, Copy, Debug, PartialEq, Eq, Structural)]
pub enum FieldKind {
    Scalar,
    Ignored,
}

/// One registered field: the method name callers use, and the field name
/// written into queries.
pub struct FieldDescriptor {
    pub method_name: String,
    pub external_name: String,
    pub kind: FieldKind,
}

impl FieldDescriptor {
    /// A queryable field, called `method_name` and written as `external_name`.
    pub fn scalar(method_name: &str, external_name: &str) -> (r: Self)
        ensures
            r.method_name@ == method_name@,
            r.external_name@ == external_name@,
            r.kind == FieldKind::Scalar,
    {
        FieldDescriptor {
            method_name: String::from_str(method_name),
            external_name: String::from_str(external_name),
            kind: FieldKind::Scalar,
        }
    }

    /// A field that exposes no entry point; its name is still reserved.
    pub fn ignored(method_name: &str) -> (r: Self)
        ensures
            r.method_name@ == method_name@,
            r.external_name@ == method_name@,
            r.kind == FieldKind::Ignored,
    {
        FieldDescriptor {
            method_name: String::from_str(method_name),
            external_name: String::from_str(method_name),
            kind: FieldKind::Ignored,
        }
    }
}

/// The name of the range entry point of a field called `m`.
pub open spec fn range_name(m: Seq<char>) -> Seq<char> {
    m + "_range"@
}

/// Whether `d` exposes the entry point `name`: its scalar setter when
/// `range` is false, its range setter when it is true.
pub open spec fn exposes(d: FieldDescriptor, name: Seq<char>, range: bool) -> bool {
    &&& d.kind == FieldKind::Scalar
    &&& name == if range {
        range_name(d.method_name@)
    } else {
        d.method_name@
    }
}

/// Whether `a`'s method name is already taken by `b`: it is `b`'s method
/// name, or the range entry point of a queryable `b`.
pub open spec fn claims_name_of(a: FieldDescriptor, b: FieldDescriptor) -> bool {
    ||| a.method_name@ == b.method_name@
    ||| b.kind == FieldKind::Scalar && a.method_name@ == range_name(b.method_name@)
}

/// Whether two distinct registrations in `ds` claim one entry-point name.
pub open spec fn has_collision(ds: Seq<FieldDescriptor>) -> bool {
    exists|i: int, j: int|
        0 <= i < ds.len() && 0 <= j < ds.len() && i != j && #[trigger] claims_name_of(
            ds[i],
            ds[j],
        )
}

/// The external field name behind entry point `name`: that of the first
/// registration that exposes it.
pub open spec fn find_field(ds: Seq<FieldDescriptor>, name: Seq<char>, range: bool) -> Option<
    Seq<char>,
>
    decreases ds.len(),
{
    if ds.len() == 0 {
        None
    } else if exposes(ds[0], name, range) {
        Some(ds[0].external_name@)
    } else {
        find_field(ds.drop_first(), name, range)
    }
}

/// Why a set of registrations was refused.
#[derive(Debug)]
pub enum RegistrationError {
    /// Two registrations claim the entry point of this name.
    Collision(String),
}

/// A validated set of registrations: no two of them claim one entry-point
/// name.
pub struct FieldTable {
    fields: Vec<FieldDescriptor>,
}

/// A scalar entry point: writes `field:value` clauses.
pub struct FieldSetter {
    field: String,
}

/// A range entry point: writes `field:[from TO to]` clauses.
pub struct RangeSetter {
    field: String,
}

impl View for FieldTable {
    type V = Seq<FieldDescriptor>;

    closed spec fn view(&self) -> Seq<FieldDescriptor> {
        self.fields@
    }
}

impl View for FieldSetter {
    type V = Seq<char>;

    closed spec fn view(&self) -> Seq<char> {
        self.field@
    }
}

impl View for RangeSetter {
    type V = Seq<char>;

    closed spec fn view(&self) -> Seq<char> {
        self.field@
    }
}

impl FieldSetter {
    /// The search field this entry point writes.
    pub fn field(&self) -> (r: &str)
        ensures
            r@ == self@,
    {
        self.field.as_str()
    }
}

impl RangeSetter {
    /// The search field this entry point writes.
    pub fn field(&self) -> (r: &str)
        ensures
            r@ == self@,
    {
        self.field.as_str()
    }
}

fn range_name_of(m: &String) -> (r: String)
    ensures
        r@ == range_name(m@),
{
    m.clone().concat("_range")
}

fn claims(a: &FieldDescriptor, b: &FieldDescriptor) -> (r: bool)
    ensures
        r == claims_name_of(*a, *b),
{
    if a.method_name == b.method_name {
        true
    } else if b.kind == FieldKind::Scalar {
        let rn = range_name_of(&b.method_name);
        a.method_name == rn
    } else {
        false
    }
}

impl FieldTable {
    #[verifier::type_invariant]
    spec fn no_collision(&self) -> bool {
        !has_collision(self.fields@)
    }

    /// Validates `fields`. Fails, naming a method name, when two of them
    /// claim one entry point: the same method name, or a method name that is
    /// another queryable field's range entry point.
    pub fn new(fields: Vec<FieldDescriptor>) -> (r: Result<FieldTable, RegistrationError>)
        ensures
            r is Ok <==> !has_collision(fields@),
            r matches Ok(t) ==> t@ == fields@,
            r matches Err(RegistrationError::Collision(name)) ==> exists|i: int, j: int|
                0 <= i < fields@.len() && 0 <= j < fields@.len() && i != j
                    && #[trigger] claims_name_of(fields@[i], fields@[j]) && name@
                    == fields@[i].method_name@,
    {
        let n = fields.len();
        let mut i: usize = 0;
        while i < n
            invariant
                n == fields@.len(),
                i <= n,
                forall|a: int, b: int|
                    0 <= a < i && 0 <= b < n && a != b ==> !#[trigger] claims_name_of(
                        fields@[a],
                        fields@[b],
                    ),
            decreases n - i,
        {
            let mut j: usize = 0;
            while j < n
                invariant
                    n == fields@.len(),
                    i < n,
                    j <= n,
                    forall|a: int, b: int|
                        0 <= a < i && 0 <= b < n && a != b ==> !#[trigger] claims_name_of(
                            fields@[a],
                            fields@[b],
                        ),
                    forall|b: int|
                        0 <= b < j && i != b ==> !#[trigger] claims_name_of(
                            fields@[i as int],
                            fields@[b],
                        ),
                decreases n - j,
            {
                if i != j && claims(&fields[i], &fields[j]) {
                    return Err(RegistrationError::Collision(fields[i].method_name.clone()));
                }
                j = j + 1;
            }
            i = i + 1;
        }
        Ok(FieldTable { fields })
    }

    /// The external field name behind entry point `name`, if a registration
    /// exposes it.
    fn lookup(&self, name: &str, range: bool) -> (r: Option<String>)
        ensures
            match r {
                Some(f) => find_field(self@, name@, range) == Some(f@),
                None => find_field(self@, name@, range) is None,
            },
    {
        let wanted = String::from_str(name);
        let mut i: usize = 0;
        assert(self@.skip(0) =~= self@);
        while i < self.fields.len()
            invariant
                i <= self@.len(),
                wanted@ == name@,
                find_field(self@, name@, range) == find_field(self@.skip(i as int), name@, range),
            decreases self@.len() - i,
        {
            let ghost rest = self@.skip(i as int);
            assert(rest.drop_first() =~= self@.skip(i + 1));
            let d = &self.fields[i];
            if d.kind == FieldKind::Scalar {
                let candidate = if range {
                    range_name_of(&d.method_name)
                } else {
                    d.method_name.clone()
                };
                if candidate == wanted {
                    return Some(d.external_name.clone());
                }
            }
            i = i + 1;
        }
        None
    }

    /// The scalar entry point called `name`. There is none for an ignored
    /// field, nor for a name that no field registered.
    pub fn setter(&self, name: &str) -> (r: Option<FieldSetter>)
        ensures
            match r {
                Some(s) => find_field(self@, name@, false) == Some(s@),
                None => find_field(self@, name@, false) is None,
            },
    {
        match self.lookup(name, false) {
            Some(field) => Some(FieldSetter { field }),
            None => None,
        }
    }

    /// The range entry point called `name`: a queryable field's method name
    /// followed by `_range`.
    pub fn range_setter(&self, name: &str) -> (r: Option<RangeSetter>)
        ensures
            match r {
                Some(s) => find_field(self@, name@, true) == Some(s@),
                None => find_field(self@, name@, true) is None,
            },
    {
        match self.lookup(name, true) {
            Some(field) => Some(RangeSetter { field }),
            None => None,
        }
    }
}

} // verus!
