use crate::text::str_equal;
use vstd::prelude::*;

verus! {

/// Foreign-key settings: whether keys are looked up at all, and the mappings
/// given by hand, oldest first. A later mapping of a column replaces an
/// earlier one.
#[derive(Debug)]
pub struct ForeignKeyConfig {
    pub enabled: bool,
    pub manual_mapping: Vec<(String, String)>,
}

/// The map that a list of pairs stands for: a later pair replaces an earlier
/// one with the same key.
pub open spec fn mapping_of(pairs: Seq<(String, String)>) -> Map<Seq<char>, Seq<char>>
    decreases pairs.len(),
{
    if pairs.len() == 0 {
        Map::empty()
    } else {
        mapping_of(pairs.drop_last()).insert(pairs.last().0@, pairs.last().1@)
    }
}

impl ForeignKeyConfig {
    /// The mappings given by hand, as a map from column to target.
    pub open spec fn mapping(&self) -> Map<Seq<char>, Seq<char>> {
        mapping_of(self.manual_mapping@)
    }

    /// The settings to start from: keys are looked up, and none is mapped by
    /// hand.
    pub fn new() -> (r: Self)
        ensures
            r.enabled,
            r.mapping() == Map::<Seq<char>, Seq<char>>::empty(),
    {
        ForeignKeyConfig { enabled: true, manual_mapping: Vec::new() }
    }

    /// The settings with the lookup of keys switched off.
    pub fn disable(self) -> (r: Self)
        ensures
            !r.enabled,
            r.manual_mapping == self.manual_mapping,
    {
        ForeignKeyConfig { enabled: false, manual_mapping: self.manual_mapping }
    }

    /// The settings with `from` mapped to `to`.
    pub fn with_mapping(self, from: String, to: String) -> (r: Self)
        ensures
            r.enabled == self.enabled,
            r.mapping() == self.mapping().insert(from@, to@),
    {
        let mut r = self;
        r.add_mapping(from, to);
        r
    }

    /// Maps `from` to `to`, whatever it was mapped to before.
    pub fn add_mapping(&mut self, from: String, to: String)
        ensures
            final(self).enabled == old(self).enabled,
            final(self).mapping() == old(self).mapping().insert(from@, to@),
    {
        self.manual_mapping.push((from, to));
        assert(self.manual_mapping@.drop_last() =~= old(self).manual_mapping@);
    }

    /// The target that `column` is mapped to, if it is mapped.
    pub fn get_mapping(&self, column: &str) -> (r: Option<&String>)
        ensures
            match r {
                Some(target) => self.mapping().contains_key(column@) && self.mapping()[column@]
                    == target@,
                None => !self.mapping().contains_key(column@),
            },
    {
        let mut i: usize = self.manual_mapping.len();
        let ghost pairs = self.manual_mapping@;
        assert(pairs.take(i as int) =~= pairs);
        while i > 0
            invariant
                0 <= i <= self.manual_mapping.len(),
                pairs == self.manual_mapping@,
                mapping_of(pairs).contains_key(column@) == mapping_of(
                    pairs.take(i as int),
                ).contains_key(column@),
                mapping_of(pairs).contains_key(column@) ==> mapping_of(pairs)[column@]
                    == mapping_of(pairs.take(i as int))[column@],
            decreases i,
        {
            let ghost head = pairs.take(i as int);
            assert(head.drop_last() =~= pairs.take(i - 1));
            assert(head.last() == pairs[i - 1]);
            if str_equal(self.manual_mapping[i - 1].0.as_str(), column) {
                return Some(&self.manual_mapping[i - 1].1);
            }
            i -= 1;
        }
        assert(pairs.take(0) =~= Seq::empty());
        None
    }
}

impl Default for ForeignKeyConfig {
    fn default() -> (r: Self)
        ensures
            r.enabled,
            r.mapping() == Map::<Seq<char>, Seq<char>>::empty(),
    {
        ForeignKeyConfig::new()
    }
}

impl Clone for ForeignKeyConfig {
    fn clone(&self) -> (r: Self)
        ensures
            r.enabled == self.enabled,
            r.mapping() == self.mapping(),
    {
        let mut pairs: Vec<(String, String)> = Vec::new();
        let mut i: usize = 0;
        while i < self.manual_mapping.len()
            invariant
                0 <= i <= self.manual_mapping.len(),
                pairs@ == self.manual_mapping@.take(i as int),
            decreases self.manual_mapping.len() - i,
        {
            let pair = &self.manual_mapping[i];
            pairs.push((pair.0.clone(), pair.1.clone()));
            i += 1;
            assert(pairs@ =~= self.manual_mapping@.take(i as int));
        }
        assert(self.manual_mapping@.take(i as int) =~= self.manual_mapping@);
        ForeignKeyConfig { enabled: self.enabled, manual_mapping: pairs }
    }
}

} // verus!
