//! What holds of a mapping however it is used.
use crate::guards::read::ReadGuard;
use crate::guards::write::WriteGuard;
use crate::MemoryMap;
use vstd::prelude::*;

verus! {

/// The length of a mapping does not depend on who looks: every guard taken on a
/// mapping, for reading or for writing, before or after any write, shows exactly as
/// many bytes as the mapping holds, so any two of them show equally many.
pub proof fn lemma_guards_agree_on_len<H>(map: MemoryMap<H>, reader: ReadGuard<H>, writer: WriteGuard<H>)
    requires
        reader.wf(),
        writer.wf(),
        reader.spec_map() == map,
        MemoryMap::Writable(writer.spec_map()) == map,
    ensures
        reader@.len() == map.spec_len(),
        writer@.len() == map.spec_len(),
        reader@.len() == writer@.len(),
{
    reader.lemma_len();
    writer.lemma_len();
}

} // verus!
