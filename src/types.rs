use vstd::prelude::*;

verus! {

/// The TypeScript type that a Slint type expression maps to, given the names
/// of the structs declared so far.
pub open spec fn map_type_spec(t: Seq<char>, declared: Set<Seq<char>>) -> Seq<char>
    decreases t.len(),
{
    if t == "int"@ {
        "number"@
    } else if t == "bool"@ {
        "boolean"@
    } else if t == "string"@ {
        "string"@
    } else if is_bracketed(t) {
        map_type_spec(t.subrange(1, t.len() - 1), declared) + "[]"@
    } else if declared.contains(t) {
        t
    } else {
        "any"@
    }
}

/// `t` has the shape `[inner]`.
pub open spec fn is_bracketed(t: Seq<char>) -> bool {
    t.len() >= 2 && t[0] == '[' && t[t.len() - 1] == ']'
}

/// `t` is one of the primitive Slint types `int`, `bool` or `string`.
pub open spec fn is_primitive(t: Seq<char>) -> bool {
    t == "int"@ || t == "bool"@ || t == "string"@
}

/// A Slint identifier with every hyphen replaced by an underscore.
pub open spec fn sanitize_spec(s: Seq<char>) -> Seq<char> {
    s.map_values(|c: char| if c == '-' { '_' } else { c })
}

/// The set of struct names declared so far while translating one file.
pub struct DeclaredNames {
    names: Vec<String>,
}

impl View for DeclaredNames {
    type V = Set<Seq<char>>;

    closed spec fn view(&self) -> Set<Seq<char>> {
        Set::new(|s: Seq<char>| exists|i: int| 0 <= i < self.names@.len() && self.names@[i]@ == s)
    }
}

impl DeclaredNames {
    pub fn new() -> (r: DeclaredNames)
        ensures
            r@ == Set::<Seq<char>>::empty(),
    {
        let r = DeclaredNames { names: Vec::new() };
        assert(r@ =~= Set::<Seq<char>>::empty());
        r
    }

    pub fn contains(&self, name: &str) -> (r: bool)
        ensures
            r == self@.contains(name@),
    {
        let target = String::from_str(name);
        let mut i: usize = 0;
        while i < self.names.len()
            invariant
                0 <= i <= self.names@.len(),
                target@ == name@,
                forall|j: int| 0 <= j < i ==> self.names@[j]@ != name@,
            decreases self.names@.len() - i,
        {
            if self.names[i] == target {
                return true;
            }
            i = i + 1;
        }
        false
    }

    /// Records `name`; a name already present is not stored twice.
    pub fn insert(&mut self, name: String)
        ensures
            final(self)@ == old(self)@.insert(name@),
    {
        let ghost nv = name@;
        let ghost before = self.names@;
        if !self.contains(name.as_str()) {
            self.names.push(name);
            assert forall|s: Seq<char>| self@.contains(s) == old(self)@.insert(nv).contains(s) by {
                if s == nv {
                    assert(self.names@[before.len() as int]@ == s);
                }
                if old(self)@.contains(s) {
                    let j = choose|j: int| 0 <= j < before.len() && before[j]@ == s;
                    assert(self.names@[j]@ == s);
                }
            }
        }
        assert(self@ =~= old(self)@.insert(nv));
    }
}

/// Maps a Slint type expression to a TypeScript type: the primitives map to
/// their TypeScript counterparts, `[T]` maps to the mapping of `T` followed by
/// `[]`, a declared struct name stays as it is, and anything else becomes `any`.
pub fn map_type(slint_type: String, seen_types: &DeclaredNames) -> (r: String)
    ensures
        r@ == map_type_spec(slint_type@, seen_types@),
    decreases slint_type@.len(),
{
    if slint_type == String::from_str("int") {
        return String::from_str("number");
    }
    if slint_type == String::from_str("bool") {
        return String::from_str("boolean");
    }
    if slint_type == String::from_str("string") {
        return String::from_str("string");
    }
    let t = slint_type.as_str();
    let n = t.unicode_len();
    if n >= 2 && t.get_char(0) == '[' && t.get_char(n - 1) == ']' {
        let inner = String::from_str(t.substring_char(1, n - 1));
        let mapped = map_type(inner, seen_types);
        return mapped.concat("[]");
    }
    if seen_types.contains(t) {
        return slint_type;
    }
    String::from_str("any")
}

/// Replaces every hyphen of a Slint identifier with an underscore.
pub fn map_name(slint_name: String) -> (r: String)
    ensures
        r@ == sanitize_spec(slint_name@),
{
    let s = slint_name.as_str();
    let n = s.unicode_len();
    let mut out = String::new();
    let mut i: usize = 0;
    while i < n
        invariant
            n == s@.len(),
            s@ == slint_name@,
            0 <= i <= n,
            out@ == sanitize_spec(s@.subrange(0, i as int)),
        decreases n - i,
    {
        proof {
            reveal_strlit("_");
        }
        if s.get_char(i) == '-' {
            out.append("_");
        } else {
            out.append(s.substring_char(i, i + 1));
        }
        assert(s@.subrange(0, i + 1) =~= s@.subrange(0, i as int).push(s@[i as int]));
        assert(sanitize_spec(s@.subrange(0, i + 1)) =~= sanitize_spec(s@.subrange(0, i as int)).push(
            if s@[i as int] == '-' { '_' } else { s@[i as int] },
        ));
        i = i + 1;
    }
    assert(s@.subrange(0, n as int) =~= s@);
    out
}

} // verus!
