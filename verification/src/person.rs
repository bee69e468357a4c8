//! A small second table: named persons, with a greeting query.
//!
//! `add` records a person; `say_hello` renders one greeting line per person,
//! in insertion order, followed by a closing line. Delivering the lines
//! (logging, printing) is the hosting boundary's business; here they are
//! plain strings with a pinned-down content.

use vstd::prelude::*;
use vstd::string::StringExecFns;

verus! {

/// A person known to the store, by name.
pub struct Person {
    name: String,
}

impl View for Person {
    type V = Seq<char>;

    closed spec fn view(&self) -> Seq<char> {
        self.name@
    }
}

impl Person {
    /// A person with the given name.
    pub fn new(name: String) -> (p: Person)
        ensures
            p@ == name@,
    {
        Person { name }
    }

    /// The person's name.
    pub fn name(&self) -> (r: &String)
        ensures
            r@ == self@,
    {
        &self.name
    }
}

/// The table of recorded persons, in insertion order. Its view is the
/// sequence of their names.
pub struct PersonTable {
    rows: Vec<Person>,
}

impl View for PersonTable {
    type V = Seq<Seq<char>>;

    closed spec fn view(&self) -> Seq<Seq<char>> {
        self.rows@.map_values(|p: Person| p@)
    }
}

/// The greeting line `say_hello` renders for one name.
pub open spec fn greeting(name: Seq<char>) -> Seq<char> {
    "Hello, "@ + name + "!"@
}

impl PersonTable {
    /// An empty table.
    pub fn new() -> (t: PersonTable)
        ensures
            t@ == Seq::<Seq<char>>::empty(),
    {
        let t = PersonTable { rows: Vec::new() };
        proof {
            assert(t@ =~= Seq::<Seq<char>>::empty());
        }
        t
    }

    /// How many persons are recorded.
    pub fn len(&self) -> (n: usize)
        ensures
            n == self@.len(),
    {
        self.rows.len()
    }
}

/// Records one more person under the given name.
pub fn add(db: &mut PersonTable, name: String)
    ensures
        final(db)@ == old(db)@.push(name@),
{
    let ghost nm = name@;
    db.rows.push(Person { name });
    proof {
        assert(db@ =~= old(db)@.push(nm));
    }
}

/// Greets every recorded person in insertion order, then the world: one
/// `Hello, <name>!` line per person and a closing `Hello, World!` line.
pub fn say_hello(db: &PersonTable) -> (r: Vec<String>)
    ensures
        r@.len() == db@.len() + 1,
        forall|i: int| 0 <= i < db@.len() ==> r@[i]@ == greeting(db@[i]),
        r@[db@.len() as int]@ == "Hello, World!"@,
{
    let n = db.rows.len();
    let mut out: Vec<String> = Vec::new();
    let mut i: usize = 0;
    while i < n
        invariant
            n == db@.len(),
            n == db.rows@.len(),
            0 <= i <= n,
            out@.len() == i,
            forall|j: int| 0 <= j < i ==> out@[j]@ == greeting(db@[j]),
            forall|j: int| 0 <= j < n ==> db.rows@[j]@ == db@[j],
        decreases n - i,
    {
        let line = String::from_str("Hello, ").concat(db.rows[i].name.as_str()).concat("!");
        out.push(line);
        i = i + 1;
    }
    let closing = String::from_str("Hello, World!");
    out.push(closing);
    out
}

} // verus!
