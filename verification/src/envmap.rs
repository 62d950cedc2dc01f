use vstd::prelude::*;

verus! {

/// Relies on the std equality of string slices: two slices are equal exactly
/// when they hold the same characters.
#[verifier::external_body]
pub(crate) fn str_eq(a: &str, b: &str) -> (r: bool)
    ensures
        r == (a@ == b@),
{
    a == b
}

/// What a sequence of name/value pairs binds a name to: the value of the
/// last pair that carries the name, as later insertions shadow earlier ones.
pub open spec fn lookup(entries: Seq<(String, String)>, k: Seq<char>) -> Option<Seq<char>>
    decreases entries.len(),
{
    if entries.len() == 0 {
        None
    } else if entries.last().0@ == k {
        Some(entries.last().1@)
    } else {
        lookup(entries.drop_last(), k)
    }
}

/// An environment: a mapping from variable names to values, both UTF-8
/// strings, kept as the ordered list of insertions; the last insertion of a
/// name wins.
pub struct EnvMap {
    entries: Vec<(String, String)>,
}

impl View for EnvMap {
    type V = Seq<(String, String)>;

    closed spec fn view(&self) -> Seq<(String, String)> {
        self.entries@
    }
}

impl EnvMap {
    /// The empty environment: no name is bound.
    pub fn new() -> (r: EnvMap)
        ensures
            r@ == Seq::<(String, String)>::empty(),
    {
        EnvMap { entries: Vec::new() }
    }

    /// Binds the name to the value, shadowing any earlier binding.
    pub fn insert(&mut self, k: String, v: String)
        ensures
            final(self)@ == old(self)@.push((k, v)),
    {
        self.entries.push((k, v));
    }

    /// How many insertions the environment holds.
    pub fn len(&self) -> (r: usize)
        ensures
            r == self@.len(),
    {
        self.entries.len()
    }

    /// The insertions, in order.
    pub fn pairs(&self) -> (r: &Vec<(String, String)>)
        ensures
            r@ == self@,
    {
        &self.entries
    }

    /// The value the name is bound to, exactly as `lookup` says.
    pub fn get(&self, k: &str) -> (r: Option<&String>)
        ensures
            match r {
                Some(v) => lookup(self@, k@) == Some(v@),
                None => lookup(self@, k@) is None,
            },
    {
        let n = self.entries.len();
        let mut i: usize = n;
        proof {
            assert(self@.take(n as int) =~= self@);
        }
        while i > 0
            invariant
                i <= n,
                n == self@.len(),
                lookup(self@, k@) == lookup(self@.take(i as int), k@),
            decreases i,
        {
            i = i - 1;
            let pair = &self.entries[i];
            proof {
                assert(self@.take(i as int + 1).last() == self@[i as int]);
                assert(self@.take(i as int + 1).drop_last() =~= self@.take(i as int));
            }
            if str_eq(pair.0.as_str(), k) {
                return Some(&pair.1);
            }
        }
        proof {
            assert(self@.take(0) =~= Seq::<(String, String)>::empty());
        }
        None
    }
}

/// Appending one pair changes exactly the binding of its name: the new pair
/// wins its name, every other name is as before.
proof fn lemma_lookup_push(entries: Seq<(String, String)>, p: (String, String))
    ensures
        forall|k: Seq<char>| #![trigger lookup(entries.push(p), k)]
            lookup(entries.push(p), k) == if p.0@ == k {
                Some(p.1@)
            } else {
                lookup(entries, k)
            },
{
    assert forall|k: Seq<char>|
        lookup(entries.push(p), k) == if p.0@ == k {
            Some(p.1@)
        } else {
            lookup(entries, k)
        } by {
        assert(entries.push(p).last() == p);
        assert(entries.push(p).drop_last() =~= entries);
    }
}

/// The bindings of the named variables and no others, read out of the whole
/// environment: what the head of a recording captures (its shell and
/// terminal). A name that is not bound is simply absent.
pub fn capture_environment_vars(keys: Vec<String>, environ: &EnvMap) -> (r: EnvMap)
    ensures
        forall|k: Seq<char>| #![trigger lookup(r@, k)]
            lookup(r@, k) == if (exists|i: int|
                0 <= i < keys@.len() && (#[trigger] keys@[i])@ == k) {
                lookup(environ@, k)
            } else {
                None::<Seq<char>>
            },
{
    let mut captured = EnvMap::new();
    let n = keys.len();
    let mut j: usize = 0;
    while j < n
        invariant
            j <= n,
            n == keys@.len(),
            forall|k: Seq<char>| #![trigger lookup(captured@, k)]
                lookup(captured@, k) == if (exists|i: int|
                    0 <= i < j && (#[trigger] keys@[i])@ == k) {
                    lookup(environ@, k)
                } else {
                    None::<Seq<char>>
                },
        decreases n - j,
    {
        let key = &keys[j];
        let ghost captured_before = captured@;
        match environ.get(key.as_str()) {
            Some(v) => {
                captured.insert(key.clone(), v.clone());
                proof {
                    lemma_lookup_push(captured_before, (keys@[j as int], *v));
                }
            },
            None => {
            },
        }
        j = j + 1;
    }
    captured
}

/// The environment a recorded child runs in: the parent's bindings, in
/// order, and then the recording marker variable set to "1", so the child
/// (and anything it starts) can tell it is being recorded.
pub fn get_environment_for_child(parent_env: Vec<(String, String)>) -> (r: EnvMap)
    ensures
        lookup(r@, "ASCIINEMA_REC"@) == Some("1"@),
        forall|k: Seq<char>|
            k != "ASCIINEMA_REC"@ ==> #[trigger] lookup(r@, k) == lookup(parent_env@, k),
{
    let ghost parent0 = parent_env@;
    let mut child_env = EnvMap::new();
    let mut rest = parent_env;
    while rest.len() > 0
        invariant
            parent0 == child_env@ + rest@,
        decreases rest.len(),
    {
        let ghost child_before = child_env@;
        let ghost rest_before = rest@;
        let pair = rest.remove(0);
        child_env.insert(pair.0, pair.1);
        proof {
            assert(rest_before.drop_first() == rest@);
            assert(child_before.push(rest_before[0]) + rest_before.drop_first() =~= child_before
                + rest_before);
        }
    }
    assert(child_env@ =~= parent0);
    child_env.insert(String::from_str("ASCIINEMA_REC"), String::from_str("1"));
    assert(child_env@.last().0@ == "ASCIINEMA_REC"@);
    assert(child_env@.drop_last() =~= parent0);
    child_env
}

} // verus!
