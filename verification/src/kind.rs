//! The lattice of value kinds.
//!
//! A kind is a set of shapes that a value may take at run time: seven scalar
//! shapes, arrays and objects. For arrays and objects the kind also records
//! which shapes their members may take.

use vstd::prelude::*;
use crate::text::{join, joined};

verus! {

/// A set of the nine value shapes, without regard to what collections hold.
#[derive(Clone, Copy, Debug, PartialEq, Eq)]
pub struct Shapes {
    pub bytes: bool,
    pub integer: bool,
    pub float: bool,
    pub boolean: bool,
    pub timestamp: bool,
    pub regex: bool,
    pub null: bool,
    pub array: bool,
    pub object: bool,
}

impl Shapes {
    pub open spec fn spec_empty() -> Shapes {
        Shapes {
            bytes: false,
            integer: false,
            float: false,
            boolean: false,
            timestamp: false,
            regex: false,
            null: false,
            array: false,
            object: false,
        }
    }

    pub open spec fn spec_any() -> Shapes {
        Shapes {
            bytes: true,
            integer: true,
            float: true,
            boolean: true,
            timestamp: true,
            regex: true,
            null: true,
            array: true,
            object: true,
        }
    }

    /// Every shape of `other` is a shape of `self`.
    pub open spec fn spec_is_superset(&self, other: &Shapes) -> bool {
        &&& other.bytes ==> self.bytes
        &&& other.integer ==> self.integer
        &&& other.float ==> self.float
        &&& other.boolean ==> self.boolean
        &&& other.timestamp ==> self.timestamp
        &&& other.regex ==> self.regex
        &&& other.null ==> self.null
        &&& other.array ==> self.array
        &&& other.object ==> self.object
    }

    /// The shapes of either set.
    pub open spec fn spec_or(self, other: Shapes) -> Shapes {
        Shapes {
            bytes: self.bytes || other.bytes,
            integer: self.integer || other.integer,
            float: self.float || other.float,
            boolean: self.boolean || other.boolean,
            timestamp: self.timestamp || other.timestamp,
            regex: self.regex || other.regex,
            null: self.null || other.null,
            array: self.array || other.array,
            object: self.object || other.object,
        }
    }

    #[verifier::when_used_as_spec(spec_empty)]
    pub fn empty() -> (s: Shapes)
        ensures
            s == Shapes::spec_empty(),
    {
        Shapes {
            bytes: false,
            integer: false,
            float: false,
            boolean: false,
            timestamp: false,
            regex: false,
            null: false,
            array: false,
            object: false,
        }
    }

    #[verifier::when_used_as_spec(spec_any)]
    pub fn any() -> (s: Shapes)
        ensures
            s == Shapes::spec_any(),
    {
        Shapes {
            bytes: true,
            integer: true,
            float: true,
            boolean: true,
            timestamp: true,
            regex: true,
            null: true,
            array: true,
            object: true,
        }
    }

    #[verifier::when_used_as_spec(spec_is_superset)]
    pub fn is_superset(&self, other: &Shapes) -> (r: bool)
        ensures
            r == self.spec_is_superset(other),
    {
        (!other.bytes || self.bytes) && (!other.integer || self.integer) && (!other.float
            || self.float) && (!other.boolean || self.boolean) && (!other.timestamp
            || self.timestamp) && (!other.regex || self.regex) && (!other.null || self.null) && (
        !other.array || self.array) && (!other.object || self.object)
    }

    #[verifier::when_used_as_spec(spec_or)]
    pub fn or(self, other: Shapes) -> (s: Shapes)
        ensures
            s == self.spec_or(other),
    {
        Shapes {
            bytes: self.bytes || other.bytes,
            integer: self.integer || other.integer,
            float: self.float || other.float,
            boolean: self.boolean || other.boolean,
            timestamp: self.timestamp || other.timestamp,
            regex: self.regex || other.regex,
            null: self.null || other.null,
            array: self.array || other.array,
            object: self.object || other.object,
        }
    }
}

/// The members that a collection kind admits: absent when `self` is `None`
/// of the two, the union otherwise.
pub open spec fn members_or(a: Option<Shapes>, b: Option<Shapes>) -> Option<Shapes> {
    match (a, b) {
        (Some(x), Some(y)) => Some(x.spec_or(y)),
        (Some(x), None) => Some(x),
        (None, Some(y)) => Some(y),
        (None, None) => None,
    }
}

/// Whatever `b` admits as a collection, `a` admits too.
pub open spec fn members_superset(a: Option<Shapes>, b: Option<Shapes>) -> bool {
    match (a, b) {
        (Some(x), Some(y)) => x.spec_is_superset(&y),
        (None, Some(_)) => false,
        (_, None) => true,
    }
}

/// One for a shape that is admitted, zero for one that is not.
pub open spec fn one(admitted: bool) -> nat {
    if admitted {
        1
    } else {
        0
    }
}

/// The set of shapes a value may take.
#[derive(Clone, Copy, Debug, PartialEq, Eq)]
pub struct Kind {
    pub bytes: bool,
    pub integer: bool,
    pub float: bool,
    pub boolean: bool,
    pub timestamp: bool,
    pub regex: bool,
    pub null: bool,
    /// Present when the value may be an array; then the shapes of its elements.
    pub array: Option<Shapes>,
    /// Present when the value may be an object; then the shapes of its fields' values.
    pub object: Option<Shapes>,
}

impl Kind {
    /// The kind of no value at all.
    pub open spec fn spec_empty() -> Kind {
        Kind {
            bytes: false,
            integer: false,
            float: false,
            boolean: false,
            timestamp: false,
            regex: false,
            null: false,
            array: None,
            object: None,
        }
    }

    /// The kind of every value.
    pub open spec fn spec_any() -> Kind {
        Kind {
            bytes: true,
            integer: true,
            float: true,
            boolean: true,
            timestamp: true,
            regex: true,
            null: true,
            array: Some(Shapes::spec_any()),
            object: Some(Shapes::spec_any()),
        }
    }

    /// The shapes of this kind, forgetting what its collections hold.
    pub open spec fn spec_shapes(&self) -> Shapes {
        Shapes {
            bytes: self.bytes,
            integer: self.integer,
            float: self.float,
            boolean: self.boolean,
            timestamp: self.timestamp,
            regex: self.regex,
            null: self.null,
            array: self.array is Some,
            object: self.object is Some,
        }
    }

    /// The kind with the given shapes whose collections may hold anything.
    pub open spec fn spec_of_shapes(shapes: Shapes) -> Kind {
        Kind {
            bytes: shapes.bytes,
            integer: shapes.integer,
            float: shapes.float,
            boolean: shapes.boolean,
            timestamp: shapes.timestamp,
            regex: shapes.regex,
            null: shapes.null,
            array: if shapes.array {
                Some(Shapes::spec_any())
            } else {
                None
            },
            object: if shapes.object {
                Some(Shapes::spec_any())
            } else {
                None
            },
        }
    }

    /// How many of the nine shapes this kind admits.
    pub open spec fn shape_count(&self) -> nat {
        one(self.bytes) + one(self.integer) + one(self.float) + one(self.boolean) + one(
            self.timestamp,
        ) + one(self.regex) + one(self.null) + one(self.array is Some) + one(self.object is Some)
    }

    pub open spec fn spec_is_empty(&self) -> bool {
        self.spec_shapes() == Shapes::spec_empty()
    }

    pub open spec fn spec_is_any(&self) -> bool {
        *self == Kind::spec_any()
    }

    /// Exactly one shape is admitted.
    pub open spec fn spec_is_exact(&self) -> bool {
        self.shape_count() == 1
    }

    /// Every value of `other` is a value of `self`.
    pub open spec fn spec_is_superset(&self, other: &Kind) -> bool {
        &&& other.bytes ==> self.bytes
        &&& other.integer ==> self.integer
        &&& other.float ==> self.float
        &&& other.boolean ==> self.boolean
        &&& other.timestamp ==> self.timestamp
        &&& other.regex ==> self.regex
        &&& other.null ==> self.null
        &&& members_superset(self.array, other.array)
        &&& members_superset(self.object, other.object)
    }

    /// Some shape is admitted by both kinds.
    pub open spec fn spec_intersects(&self, other: &Kind) -> bool {
        ||| self.bytes && other.bytes
        ||| self.integer && other.integer
        ||| self.float && other.float
        ||| self.boolean && other.boolean
        ||| self.timestamp && other.timestamp
        ||| self.regex && other.regex
        ||| self.null && other.null
        ||| self.array is Some && other.array is Some
        ||| self.object is Some && other.object is Some
    }

    /// The values of either kind.
    pub open spec fn spec_or(self, other: Kind) -> Kind {
        Kind {
            bytes: self.bytes || other.bytes,
            integer: self.integer || other.integer,
            float: self.float || other.float,
            boolean: self.boolean || other.boolean,
            timestamp: self.timestamp || other.timestamp,
            regex: self.regex || other.regex,
            null: self.null || other.null,
            array: members_or(self.array, other.array),
            object: members_or(self.object, other.object),
        }
    }

    /// No scalar shape is admitted.
    pub open spec fn no_scalar(&self) -> bool {
        !self.bytes && !self.integer && !self.float && !self.boolean && !self.timestamp
            && !self.regex && !self.null
    }

    /// The value is certain to be an array or an object.
    pub open spec fn spec_is_collection(&self) -> bool {
        self.no_scalar() && (self.array is Some || self.object is Some)
    }

    pub open spec fn spec_contains_array(&self) -> bool {
        self.array is Some
    }

    pub open spec fn spec_contains_object(&self) -> bool {
        self.object is Some
    }

    /// The kind of the elements, when the value may be an array.
    pub open spec fn spec_array_members(&self) -> Option<Kind> {
        match self.array {
            Some(shapes) => Some(Kind::spec_of_shapes(shapes)),
            None => None,
        }
    }

    /// The kind of the fields' values, when the value may be an object.
    pub open spec fn spec_object_members(&self) -> Option<Kind> {
        match self.object {
            Some(shapes) => Some(Kind::spec_of_shapes(shapes)),
            None => None,
        }
    }

    /// The kind of a single scalar shape.
    pub open spec fn scalar(
        bytes: bool,
        integer: bool,
        float: bool,
        boolean: bool,
        timestamp: bool,
        regex: bool,
        null: bool,
    ) -> Kind {
        Kind { bytes, integer, float, boolean, timestamp, regex, null, array: None, object: None }
    }

    pub open spec fn spec_bytes() -> Kind {
        Kind::scalar(true, false, false, false, false, false, false)
    }

    pub open spec fn spec_integer() -> Kind {
        Kind::scalar(false, true, false, false, false, false, false)
    }

    pub open spec fn spec_float() -> Kind {
        Kind::scalar(false, false, true, false, false, false, false)
    }

    pub open spec fn spec_boolean() -> Kind {
        Kind::scalar(false, false, false, true, false, false, false)
    }

    pub open spec fn spec_timestamp() -> Kind {
        Kind::scalar(false, false, false, false, true, false, false)
    }

    pub open spec fn spec_regex() -> Kind {
        Kind::scalar(false, false, false, false, false, true, false)
    }

    pub open spec fn spec_null() -> Kind {
        Kind::scalar(false, false, false, false, false, false, true)
    }

    /// Arrays whose elements take the shapes of `members`.
    pub open spec fn spec_array(members: Kind) -> Kind {
        Kind { array: Some(members.spec_shapes()), ..Kind::spec_empty() }
    }

    /// Objects whose fields' values take the shapes of `members`.
    pub open spec fn spec_object(members: Kind) -> Kind {
        Kind { object: Some(members.spec_shapes()), ..Kind::spec_empty() }
    }

    #[verifier::when_used_as_spec(spec_empty)]
    pub fn empty() -> (k: Kind)
        ensures
            k == Kind::spec_empty(),
    {
        Kind {
            bytes: false,
            integer: false,
            float: false,
            boolean: false,
            timestamp: false,
            regex: false,
            null: false,
            array: None,
            object: None,
        }
    }

    #[verifier::when_used_as_spec(spec_any)]
    pub fn any() -> (k: Kind)
        ensures
            k == Kind::spec_any(),
    {
        Kind {
            bytes: true,
            integer: true,
            float: true,
            boolean: true,
            timestamp: true,
            regex: true,
            null: true,
            array: Some(Shapes::any()),
            object: Some(Shapes::any()),
        }
    }

    #[verifier::when_used_as_spec(spec_bytes)]
    pub fn bytes() -> (k: Kind)
        ensures
            k == Kind::spec_bytes(),
    {
        let mut k = Kind::empty();
        k.bytes = true;
        k
    }

    #[verifier::when_used_as_spec(spec_integer)]
    pub fn integer() -> (k: Kind)
        ensures
            k == Kind::spec_integer(),
    {
        let mut k = Kind::empty();
        k.integer = true;
        k
    }

    #[verifier::when_used_as_spec(spec_float)]
    pub fn float() -> (k: Kind)
        ensures
            k == Kind::spec_float(),
    {
        let mut k = Kind::empty();
        k.float = true;
        k
    }

    #[verifier::when_used_as_spec(spec_boolean)]
    pub fn boolean() -> (k: Kind)
        ensures
            k == Kind::spec_boolean(),
    {
        let mut k = Kind::empty();
        k.boolean = true;
        k
    }

    #[verifier::when_used_as_spec(spec_timestamp)]
    pub fn timestamp() -> (k: Kind)
        ensures
            k == Kind::spec_timestamp(),
    {
        let mut k = Kind::empty();
        k.timestamp = true;
        k
    }

    #[verifier::when_used_as_spec(spec_regex)]
    pub fn regex() -> (k: Kind)
        ensures
            k == Kind::spec_regex(),
    {
        let mut k = Kind::empty();
        k.regex = true;
        k
    }

    #[verifier::when_used_as_spec(spec_null)]
    pub fn null() -> (k: Kind)
        ensures
            k == Kind::spec_null(),
    {
        let mut k = Kind::empty();
        k.null = true;
        k
    }

    #[verifier::when_used_as_spec(spec_array)]
    pub fn array(members: Kind) -> (k: Kind)
        ensures
            k == Kind::spec_array(members),
    {
        let mut k = Kind::empty();
        k.array = Some(members.shapes());
        k
    }

    #[verifier::when_used_as_spec(spec_object)]
    pub fn object(members: Kind) -> (k: Kind)
        ensures
            k == Kind::spec_object(members),
    {
        let mut k = Kind::empty();
        k.object = Some(members.shapes());
        k
    }

    #[verifier::when_used_as_spec(spec_shapes)]
    pub fn shapes(&self) -> (s: Shapes)
        ensures
            s == self.spec_shapes(),
    {
        Shapes {
            bytes: self.bytes,
            integer: self.integer,
            float: self.float,
            boolean: self.boolean,
            timestamp: self.timestamp,
            regex: self.regex,
            null: self.null,
            array: self.array.is_some(),
            object: self.object.is_some(),
        }
    }

    #[verifier::when_used_as_spec(spec_of_shapes)]
    pub fn of_shapes(shapes: Shapes) -> (k: Kind)
        ensures
            k == Kind::spec_of_shapes(shapes),
    {
        Kind {
            bytes: shapes.bytes,
            integer: shapes.integer,
            float: shapes.float,
            boolean: shapes.boolean,
            timestamp: shapes.timestamp,
            regex: shapes.regex,
            null: shapes.null,
            array: if shapes.array {
                Some(Shapes::any())
            } else {
                None
            },
            object: if shapes.object {
                Some(Shapes::any())
            } else {
                None
            },
        }
    }

    #[verifier::when_used_as_spec(spec_or)]
    pub fn or(self, other: Kind) -> (k: Kind)
        ensures
            k == self.spec_or(other),
    {
        Kind {
            bytes: self.bytes || other.bytes,
            integer: self.integer || other.integer,
            float: self.float || other.float,
            boolean: self.boolean || other.boolean,
            timestamp: self.timestamp || other.timestamp,
            regex: self.regex || other.regex,
            null: self.null || other.null,
            array: union_members(self.array, other.array),
            object: union_members(self.object, other.object),
        }
    }

    /// Admits byte strings as well.
    pub fn add_bytes(&mut self)
        ensures
            *final(self) == old(self).spec_or(Kind::spec_bytes()),
    {
        self.bytes = true;
    }

    /// Admits integers as well.
    pub fn add_integer(&mut self)
        ensures
            *final(self) == old(self).spec_or(Kind::spec_integer()),
    {
        self.integer = true;
    }

    fn count(&self) -> (n: u8)
        ensures
            n == self.shape_count(),
    {
        unit(self.bytes) + unit(self.integer) + unit(self.float) + unit(self.boolean) + unit(
            self.timestamp,
        ) + unit(self.regex) + unit(self.null) + unit(self.array.is_some()) + unit(
            self.object.is_some(),
        )
    }

    #[verifier::when_used_as_spec(spec_is_empty)]
    pub fn is_empty(&self) -> (r: bool)
        ensures
            r == self.spec_is_empty(),
    {
        self.count() == 0
    }

    #[verifier::when_used_as_spec(spec_is_exact)]
    pub fn is_exact(&self) -> (r: bool)
        ensures
            r == self.spec_is_exact(),
    {
        self.count() == 1
    }

    #[verifier::when_used_as_spec(spec_is_any)]
    pub fn is_any(&self) -> (r: bool)
        ensures
            r == self.spec_is_any(),
    {
        let all = Shapes::any();
        self.count() == 9 && match self.array {
            Some(a) => a.is_superset(&all),
            None => false,
        } && match self.object {
            Some(o) => o.is_superset(&all),
            None => false,
        }
    }

    #[verifier::when_used_as_spec(spec_is_superset)]
    pub fn is_superset(&self, other: &Kind) -> (r: bool)
        ensures
            r == self.spec_is_superset(other),
    {
        (!other.bytes || self.bytes) && (!other.integer || self.integer) && (!other.float
            || self.float) && (!other.boolean || self.boolean) && (!other.timestamp
            || self.timestamp) && (!other.regex || self.regex) && (!other.null || self.null)
            && admits_members(self.array, other.array) && admits_members(self.object, other.object)
    }

    #[verifier::when_used_as_spec(spec_intersects)]
    pub fn intersects(&self, other: &Kind) -> (r: bool)
        ensures
            r == self.spec_intersects(other),
    {
        (self.bytes && other.bytes) || (self.integer && other.integer) || (self.float
            && other.float) || (self.boolean && other.boolean) || (self.timestamp
            && other.timestamp) || (self.regex && other.regex) || (self.null && other.null) || (
        self.array.is_some() && other.array.is_some()) || (self.object.is_some()
            && other.object.is_some())
    }

    #[verifier::when_used_as_spec(spec_is_collection)]
    pub fn is_collection(&self) -> (r: bool)
        ensures
            r == self.spec_is_collection(),
    {
        !self.bytes && !self.integer && !self.float && !self.boolean && !self.timestamp
            && !self.regex && !self.null && (self.array.is_some() || self.object.is_some())
    }

    #[verifier::when_used_as_spec(spec_contains_array)]
    pub fn contains_array(&self) -> (r: bool)
        ensures
            r == self.spec_contains_array(),
    {
        self.array.is_some()
    }

    #[verifier::when_used_as_spec(spec_contains_object)]
    pub fn contains_object(&self) -> (r: bool)
        ensures
            r == self.spec_contains_object(),
    {
        self.object.is_some()
    }

    #[verifier::when_used_as_spec(spec_array_members)]
    pub fn array_members(&self) -> (r: Option<Kind>)
        ensures
            r == self.spec_array_members(),
    {
        match self.array {
            Some(shapes) => Some(Kind::of_shapes(shapes)),
            None => None,
        }
    }

    #[verifier::when_used_as_spec(spec_object_members)]
    pub fn object_members(&self) -> (r: Option<Kind>)
        ensures
            r == self.spec_object_members(),
    {
        match self.object {
            Some(shapes) => Some(Kind::of_shapes(shapes)),
            None => None,
        }
    }

    /// The value is certain to be a byte string.
    pub open spec fn spec_is_bytes(&self) -> bool {
        self.bytes && self.spec_is_exact()
    }

    pub open spec fn spec_is_integer(&self) -> bool {
        self.integer && self.spec_is_exact()
    }

    pub open spec fn spec_is_float(&self) -> bool {
        self.float && self.spec_is_exact()
    }

    pub open spec fn spec_is_boolean(&self) -> bool {
        self.boolean && self.spec_is_exact()
    }

    pub open spec fn spec_is_timestamp(&self) -> bool {
        self.timestamp && self.spec_is_exact()
    }

    pub open spec fn spec_is_array(&self) -> bool {
        self.array is Some && self.spec_is_exact()
    }

    pub open spec fn spec_is_object(&self) -> bool {
        self.object is Some && self.spec_is_exact()
    }

    #[verifier::when_used_as_spec(spec_is_bytes)]
    pub fn is_bytes(&self) -> (r: bool)
        ensures
            r == self.spec_is_bytes(),
    {
        self.bytes && self.is_exact()
    }

    #[verifier::when_used_as_spec(spec_is_integer)]
    pub fn is_integer(&self) -> (r: bool)
        ensures
            r == self.spec_is_integer(),
    {
        self.integer && self.is_exact()
    }

    #[verifier::when_used_as_spec(spec_is_float)]
    pub fn is_float(&self) -> (r: bool)
        ensures
            r == self.spec_is_float(),
    {
        self.float && self.is_exact()
    }

    #[verifier::when_used_as_spec(spec_is_boolean)]
    pub fn is_boolean(&self) -> (r: bool)
        ensures
            r == self.spec_is_boolean(),
    {
        self.boolean && self.is_exact()
    }

    #[verifier::when_used_as_spec(spec_is_timestamp)]
    pub fn is_timestamp(&self) -> (r: bool)
        ensures
            r == self.spec_is_timestamp(),
    {
        self.timestamp && self.is_exact()
    }

    #[verifier::when_used_as_spec(spec_is_array)]
    pub fn is_array(&self) -> (r: bool)
        ensures
            r == self.spec_is_array(),
    {
        self.array.is_some() && self.is_exact()
    }

    #[verifier::when_used_as_spec(spec_is_object)]
    pub fn is_object(&self) -> (r: bool)
        ensures
            r == self.spec_is_object(),
    {
        self.object.is_some() && self.is_exact()
    }

    /// The names of the admitted shapes, in a fixed order.
    pub open spec fn names(&self) -> Seq<Seq<char>> {
        let n0 = Seq::<Seq<char>>::empty();
        let n1 = if self.bytes { n0.push("string"@) } else { n0 };
        let n2 = if self.integer { n1.push("integer"@) } else { n1 };
        let n3 = if self.float { n2.push("float"@) } else { n2 };
        let n4 = if self.boolean { n3.push("boolean"@) } else { n3 };
        let n5 = if self.timestamp { n4.push("timestamp"@) } else { n4 };
        let n6 = if self.regex { n5.push("regex"@) } else { n5 };
        let n7 = if self.null { n6.push("null"@) } else { n6 };
        let n8 = if self.array is Some { n7.push("array"@) } else { n7 };
        let n9 = if self.object is Some { n8.push("object"@) } else { n8 };
        n9
    }

    /// How the kind reads in a message: `any`, `never`, or the names of its
    /// shapes with `or` between them.
    pub open spec fn text(&self) -> Seq<char> {
        if self.spec_is_any() {
            "any"@
        } else if self.spec_is_empty() {
            "never"@
        } else {
            joined(self.names(), " or "@)
        }
    }

    /// Writes the kind as it reads in a message.
    pub fn to_string(&self) -> (s: String)
        ensures
            s@ == self.text(),
    {
        if self.is_any() {
            return String::from_str("any");
        }
        if self.is_empty() {
            return String::from_str("never");
        }
        let mut names: Vec<String> = Vec::new();
        assert(crate::text::texts(names@) =~= Seq::<Seq<char>>::empty());
        push_name(&mut names, self.bytes, "string");
        push_name(&mut names, self.integer, "integer");
        push_name(&mut names, self.float, "float");
        push_name(&mut names, self.boolean, "boolean");
        push_name(&mut names, self.timestamp, "timestamp");
        push_name(&mut names, self.regex, "regex");
        push_name(&mut names, self.null, "null");
        push_name(&mut names, self.array.is_some(), "array");
        push_name(&mut names, self.object.is_some(), "object");
        join(&names, " or ")
    }
}

fn unit(admitted: bool) -> (n: u8)
    ensures
        n == one(admitted),
{
    if admitted {
        1
    } else {
        0
    }
}

fn push_name(names: &mut Vec<String>, admitted: bool, name: &str)
    ensures
        crate::text::texts(final(names)@) == if admitted {
            crate::text::texts(old(names)@).push(name@)
        } else {
            crate::text::texts(old(names)@)
        },
{
    if admitted {
        names.push(String::from_str(name));
    }
}

fn union_members(a: Option<Shapes>, b: Option<Shapes>) -> (r: Option<Shapes>)
    ensures
        r == members_or(a, b),
{
    match (a, b) {
        (Some(x), Some(y)) => Some(x.or(y)),
        (Some(x), None) => Some(x),
        (None, Some(y)) => Some(y),
        (None, None) => None,
    }
}

fn admits_members(a: Option<Shapes>, b: Option<Shapes>) -> (r: bool)
    ensures
        r == members_superset(a, b),
{
    match (a, b) {
        (Some(x), Some(y)) => x.is_superset(&y),
        (None, Some(_)) => false,
        (_, None) => true,
    }
}

/// One of the nine shapes that a value takes.
#[derive(Clone, Copy, Debug, PartialEq, Eq)]
pub enum Shape {
    Bytes,
    Integer,
    Float,
    Boolean,
    Timestamp,
    Regex,
    Null,
    Array,
    Object,
}

impl Kind {
    /// A value of this kind may have the given shape.
    pub open spec fn admits(&self, shape: Shape) -> bool {
        match shape {
            Shape::Bytes => self.bytes,
            Shape::Integer => self.integer,
            Shape::Float => self.float,
            Shape::Boolean => self.boolean,
            Shape::Timestamp => self.timestamp,
            Shape::Regex => self.regex,
            Shape::Null => self.null,
            Shape::Array => self.array is Some,
            Shape::Object => self.object is Some,
        }
    }
}

impl View for Kind {
    type V = Set<Shape>;

    /// The shapes that a value of this kind may have.
    open spec fn view(&self) -> Set<Shape> {
        Set::new(|shape: Shape| self.admits(shape))
    }
}

/// The shape that a kind admits, where it admits one.
pub open spec fn some_shape(kind: Kind) -> Shape {
    if kind.bytes {
        Shape::Bytes
    } else if kind.integer {
        Shape::Integer
    } else if kind.float {
        Shape::Float
    } else if kind.boolean {
        Shape::Boolean
    } else if kind.timestamp {
        Shape::Timestamp
    } else if kind.regex {
        Shape::Regex
    } else if kind.null {
        Shape::Null
    } else if kind.array is Some {
        Shape::Array
    } else {
        Shape::Object
    }
}

/// The empty kind admits no shape and `any` admits them all.
pub proof fn lemma_shapes_of_bounds()
    ensures
        Kind::spec_empty()@ == Set::<Shape>::empty(),
        Kind::spec_any()@ == Set::<Shape>::full(),
{
    assert(Kind::spec_empty()@ =~= Set::<Shape>::empty());
    assert(Kind::spec_any()@ =~= Set::<Shape>::full());
}

/// A union admits what either part admits.
pub proof fn lemma_shapes_of_union(a: Kind, b: Kind)
    ensures
        a.spec_or(b)@ == a@.union(b@),
{
    assert(a.spec_or(b)@ =~= a@.union(b@));
}

/// Two kinds intersect where they admit a shape in common.
pub proof fn lemma_shapes_of_intersecting(a: Kind, b: Kind)
    ensures
        a.spec_intersects(&b) <==> !a@.disjoint(b@),
{
    if a.spec_intersects(&b) {
        let common = Kind {
            bytes: a.bytes && b.bytes,
            integer: a.integer && b.integer,
            float: a.float && b.float,
            boolean: a.boolean && b.boolean,
            timestamp: a.timestamp && b.timestamp,
            regex: a.regex && b.regex,
            null: a.null && b.null,
            array: if a.array is Some && b.array is Some {
                a.array
            } else {
                None
            },
            object: if a.object is Some && b.object is Some {
                a.object
            } else {
                None
            },
        };
        let shape = some_shape(common);
        assert(a@.contains(shape) && b@.contains(shape));
    }
    if !a@.disjoint(b@) {
        let shape = choose|shape: Shape| a@.contains(shape) && b@.contains(shape);
        assert(a.admits(shape) && b.admits(shape));
    }
}

/// A superset admits every shape of the kind within it.
pub proof fn lemma_shapes_of_superset(a: Kind, b: Kind)
    requires
        a.spec_is_superset(&b),
    ensures
        b@.subset_of(a@),
{
}

/// A kind is empty where it admits no shape.
pub proof fn lemma_shapes_of_empty(a: Kind)
    ensures
        a.spec_is_empty() <==> a@ == Set::<Shape>::empty(),
{
    if a.spec_is_empty() {
        assert(a@ =~= Set::<Shape>::empty());
    }
    if a@ == Set::<Shape>::empty() {
        assert(!a@.contains(Shape::Bytes));
        assert(!a@.contains(Shape::Integer));
        assert(!a@.contains(Shape::Float));
        assert(!a@.contains(Shape::Boolean));
        assert(!a@.contains(Shape::Timestamp));
        assert(!a@.contains(Shape::Regex));
        assert(!a@.contains(Shape::Null));
        assert(!a@.contains(Shape::Array));
        assert(!a@.contains(Shape::Object));
    }
}

/// A kind is exact where it admits one shape and no other.
pub proof fn lemma_shapes_of_exact(a: Kind)
    ensures
        a.spec_is_exact() <==> exists|shape: Shape| a@ == set![shape],
{
    if a.spec_is_exact() {
        assert(a@ =~= set![some_shape(a)]);
    }
    if exists|shape: Shape| a@ == set![shape] {
        let shape = choose|shape: Shape| a@ == set![shape];
        assert forall|other: Shape| a.admits(other) implies other == shape by {
            assert(a@.contains(other));
        }
        assert(a@.contains(shape));
        assert(a.admits(Shape::Bytes) ==> shape == Shape::Bytes);
        assert(a.admits(Shape::Integer) ==> shape == Shape::Integer);
        assert(a.admits(Shape::Float) ==> shape == Shape::Float);
        assert(a.admits(Shape::Boolean) ==> shape == Shape::Boolean);
        assert(a.admits(Shape::Timestamp) ==> shape == Shape::Timestamp);
        assert(a.admits(Shape::Regex) ==> shape == Shape::Regex);
        assert(a.admits(Shape::Null) ==> shape == Shape::Null);
        assert(a.admits(Shape::Array) ==> shape == Shape::Array);
        assert(a.admits(Shape::Object) ==> shape == Shape::Object);
    }
}

/// Every kind is a superset of itself.
pub proof fn lemma_superset_reflexive(k: Kind)
    ensures
        k.spec_is_superset(&k),
{
}

/// Supersets compose.
pub proof fn lemma_superset_transitive(a: Kind, b: Kind, c: Kind)
    requires
        a.spec_is_superset(&b),
        b.spec_is_superset(&c),
    ensures
        a.spec_is_superset(&c),
{
}

/// `any` is a superset of every kind, and every kind of the empty kind.
pub proof fn lemma_superset_bounds(k: Kind)
    ensures
        Kind::spec_any().spec_is_superset(&k),
        k.spec_is_superset(&Kind::spec_empty()),
{
}

/// A superset of a kind that admits some shape shares that shape with it.
pub proof fn lemma_superset_intersects(a: Kind, b: Kind)
    requires
        a.spec_is_superset(&b),
        !b.spec_is_empty(),
    ensures
        a.spec_intersects(&b),
{
}

/// Sharing a shape does not depend on the order of the two kinds.
pub proof fn lemma_intersects_symmetric(a: Kind, b: Kind)
    ensures
        a.spec_intersects(&b) == b.spec_intersects(&a),
{
}

/// A union is a superset of both its parts, and the least such kind.
pub proof fn lemma_or_is_least_upper_bound(a: Kind, b: Kind, c: Kind)
    ensures
        a.spec_or(b).spec_is_superset(&a),
        a.spec_or(b).spec_is_superset(&b),
        c.spec_is_superset(&a) && c.spec_is_superset(&b) ==> c.spec_is_superset(&a.spec_or(b)),
{
}

} // verus!
