//! Host objects and the named maps that they own.

use vstd::prelude::*;
use vstd::string::StringSliceAdditionalSpecFns;
use vstd::utf8::encode_utf8_decode_utf8;

verus! {

/// Compares two strings byte for byte: no normalisation, no case folding.
pub fn same_text(a: &str, b: &str) -> (r: bool)
    ensures
        r == (a@ == b@),
{
    let x = a.as_bytes();
    let y = b.as_bytes();
    proof {
        encode_utf8_decode_utf8(a@);
        encode_utf8_decode_utf8(b@);
    }
    if x.len() != y.len() {
        return false;
    }
    let n = x.len();
    let mut i: usize = 0;
    while i < n
        invariant
            i <= n,
            n == x@.len(),
            n == y@.len(),
            x@ == a.spec_bytes(),
            y@ == b.spec_bytes(),
            forall|j: int| 0 <= j < i ==> x@[j] == y@[j],
        decreases n - i,
    {
        if x[i] != y[i] {
            return false;
        }
        i = i + 1;
    }
    assert(x@ =~= y@);
    true
}

/// A named resource inside a host object, with the descriptor that stands for
/// it as long as the object lives.
pub struct MapEntry {
    name: String,
    fd: i32,
}

impl MapEntry {
    /// The name by which the owning object knows this map.
    pub closed spec fn name_spec(&self) -> Seq<char> {
        self.name@
    }

    /// The descriptor of this map.
    pub closed spec fn fd_spec(&self) -> i32 {
        self.fd
    }

    #[verifier::type_invariant]
    spec fn descriptor_is_valid(&self) -> bool {
        self.fd >= 0
    }

    /// The name by which the owning object knows this map.
    pub fn name(&self) -> (r: &str)
        ensures
            r@ == self.name_spec(),
    {
        self.name.as_str()
    }

    /// The descriptor of this map: never negative.
    pub fn fd(&self) -> (r: i32)
        ensures
            r == self.fd_spec(),
            r >= 0,
    {
        proof {
            use_type_invariant(self);
        }
        self.fd
    }
}

/// One loaded program unit: the owner of a collection of named maps.
///
/// Within one object no two maps share a name.
pub struct HostObject {
    maps: Vec<MapEntry>,
}

impl View for HostObject {
    type V = Map<Seq<char>, i32>;

    /// The object as a mapping from each map's name to its descriptor.
    closed spec fn view(&self) -> Map<Seq<char>, i32> {
        Map::new(|name: Seq<char>| self.holds(name), |name: Seq<char>| self.maps[self.place_of(name)].fd)
    }
}

impl HostObject {
    spec fn found_at(&self, name: Seq<char>, i: int) -> bool {
        0 <= i < self.maps.len() && self.maps[i].name@ == name
    }

    spec fn holds(&self, name: Seq<char>) -> bool {
        exists|i: int| self.found_at(name, i)
    }

    spec fn place_of(&self, name: Seq<char>) -> int {
        choose|i: int| self.found_at(name, i)
    }

    /// Validity: names are unique within the object and no descriptor is
    /// negative. It holds of every object that executable code holds.
    #[verifier::type_invariant]
    pub closed spec fn wf(&self) -> bool {
        &&& forall|i: int, j: int|
            0 <= i < j < self.maps.len() ==> self.maps[i].name@ != self.maps[j].name@
        &&& forall|i: int| 0 <= i < self.maps.len() ==> self.maps[i].fd >= 0
    }

    /// In a valid object every descriptor is non-negative.
    pub proof fn lemma_descriptors_non_negative(&self, name: Seq<char>)
        requires
            self.wf(),
            self@.contains_key(name),
        ensures
            self@[name] >= 0,
    {
        assert(self.found_at(name, self.place_of(name)));
    }

    proof fn lemma_place(&self, name: Seq<char>, i: int)
        requires
            self.wf(),
            self.found_at(name, i),
        ensures
            self.holds(name),
            self.place_of(name) == i,
    {
        let chosen = self.place_of(name);
        assert(self.found_at(name, chosen));
    }

    /// An object without maps.
    pub fn new() -> (o: HostObject)
        ensures
            o@ == Map::<Seq<char>, i32>::empty(),
            o.wf(),
    {
        let o = HostObject { maps: Vec::new() };
        assert(o@ =~= Map::<Seq<char>, i32>::empty()) by {
            assert forall|name: Seq<char>| !o.holds(name) by {
                if o.holds(name) {
                    assert(o.found_at(name, o.place_of(name)));
                }
            }
        }
        o
    }

    /// Looks a map up by its exact name. The collection is only read.
    pub fn map(&self, name: &str) -> (r: Option<&MapEntry>)
        ensures
            match r {
                Some(entry) => {
                    &&& self@.contains_key(name@)
                    &&& entry.name_spec() == name@
                    &&& entry.fd_spec() == self@[name@]
                },
                None => !self@.contains_key(name@),
            },
    {
        proof {
            use_type_invariant(self);
        }
        let n = self.maps.len();
        let mut i: usize = 0;
        while i < n
            invariant
                i <= n,
                n == self.maps.len(),
                self.wf(),
                forall|j: int| 0 <= j < i ==> !self.found_at(name@, j),
            decreases n - i,
        {
            if same_text(self.maps[i].name(), name) {
                proof {
                    self.lemma_place(name@, i as int);
                }
                return Some(&self.maps[i]);
            }
            i = i + 1;
        }
        assert(!self.holds(name@)) by {
            if self.holds(name@) {
                assert(self.found_at(name@, self.place_of(name@)));
            }
        }
        None
    }

    /// Adds a map under `name` with descriptor `fd`. The object is left as it
    /// was when it already holds a map of that name or when `fd` is negative.
    pub fn add_map(&mut self, name: &str, fd: i32) -> (added: bool)
        ensures
            added == (fd >= 0 && !old(self)@.contains_key(name@)),
            added ==> final(self)@ == old(self)@.insert(name@, fd),
            !added ==> final(self)@ == old(self)@,
            final(self).wf(),
    {
        proof {
            use_type_invariant(&*self);
        }
        if fd < 0 || self.map(name).is_some() {
            return false;
        }
        let ghost before = *self;
        // The vector is taken out of the object and put back whole, so that
        // the object is valid at every step.
        let mut taken = HostObject::new();
        core::mem::swap(self, &mut taken);
        let mut maps = taken.maps;
        maps.push(MapEntry { name: name.to_owned(), fd });
        let ghost after = HostObject { maps };
        proof {
            let last = before.maps.len() as int;
            assert forall|i: int| 0 <= i < last implies after.maps[i] == before.maps[i] by {}
            assert(after.wf()) by {
                assert forall|i: int, j: int| 0 <= i < j < after.maps.len() implies after.maps[i].name@
                    != after.maps[j].name@ by {
                    if j == last {
                        assert(!before.holds(name@));
                        assert(!before.found_at(name@, i));
                    }
                }
            }
            assert(after@ =~= before@.insert(name@, fd)) by {
                assert forall|other: Seq<char>| after.holds(other) <==> (other == name@
                    || before.holds(other)) by {
                    if after.holds(other) {
                        let k = after.place_of(other);
                        assert(after.found_at(other, k));
                        if k < last {
                            assert(before.found_at(other, k));
                        }
                    }
                    if other == name@ {
                        assert(after.found_at(other, last));
                    }
                    if before.holds(other) {
                        let k = before.place_of(other);
                        assert(before.found_at(other, k));
                        assert(after.found_at(other, k));
                    }
                }
                assert forall|other: Seq<char>| after.holds(other) implies after@[other]
                    == before@.insert(name@, fd)[other] by {
                    if other == name@ {
                        after.lemma_place(other, last);
                    } else {
                        let k = before.place_of(other);
                        assert(before.found_at(other, k));
                        assert(after.found_at(other, k));
                        after.lemma_place(other, k);
                    }
                }
            }
        }
        *self = HostObject { maps };
        true
    }
}

} // verus!
