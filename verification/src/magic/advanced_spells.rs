//! Options of a cast that combines the advanced spell features.

use vstd::prelude::*;
use crate::magic::metamagic::MetamagicType;

verus! {

/// How a spell is to be cast: the metamagics applied, the extra mana
/// spent to overcharge it, and whether it is channeled or cast as a ritual.
#[derive(Debug, Clone)]
pub struct CastingOptions {
    pub metamagics: Vec<MetamagicType>,
    pub overcharge_mana: i32,
    pub channeling: bool,
    pub ritual: bool,
}

impl Default for CastingOptions {
    /// No metamagic, no overcharge, a plain cast.
    fn default() -> (o: Self)
        ensures
            o.metamagics@ == Seq::<MetamagicType>::empty(),
            o.overcharge_mana == 0,
            !o.channeling && !o.ritual,
    {
        CastingOptions { metamagics: Vec::new(), overcharge_mana: 0, channeling: false, ritual: false }
    }
}

} // verus!
