//! The pipeline's general guarantees, stated and proved over the abstract
//! states that the executable contracts speak of.

use crate::compress::CompressPreprocessor;
use crate::compress::compressed_of;
use crate::config::ConfigV;
use crate::config::Preprocessor;
use crate::config::SourceFileV;
use crate::config::spec_apply_chain;
use crate::config::spec_manifest;
use crate::config::spec_process;
use crate::config::spec_source_ok;
use crate::config::spec_staged;
use crate::file::FileV;
use crate::file::Preprocess;
use crate::hash::HashPreprocessor;
use crate::hash::spec_hash_hex;
use crate::hash::spec_hash_rename;
use vstd::prelude::*;

verus! {

/// Every transform preserves a staged file's source path, its destination
/// directory and depth, and well-formedness; so does any chain of them.
pub proof fn lemma_chain_preserves(ps: Seq<Preprocessor>, f: FileV)
    requires
        f.wf(),
    ensures
        spec_apply_chain(ps, f).wf(),
        spec_apply_chain(ps, f).source == f.source,
        spec_apply_chain(ps, f).dest.len() == f.dest.len(),
        spec_apply_chain(ps, f).dest.drop_last() == f.dest.drop_last(),
    decreases ps.len(),
{
    if ps.len() > 0 {
        let g = ps.first().spec_preprocess(f);
        reveal_strlit(".");
        assert(g.wf());
        assert(g.dest.drop_last() =~= f.dest.drop_last());
        lemma_chain_preserves(ps.drop_first(), g);
    }
}

/// A run that discovers no files serializes an empty manifest; by the run
/// contract it also stages no files and records no entries.
pub proof fn lemma_empty_run(cfg: ConfigV)
    ensures
        spec_manifest(cfg, Seq::<SourceFileV>::empty()) == Seq::<char>::empty(),
{
}

/// Transform order decides what the embedded checksum covers: compression
/// followed by the rename hashes the compressed bytes, while the rename
/// followed by compression hashes the original bytes. Both orders leave the
/// compressed bytes as the content.
pub proof fn lemma_order_sensitivity(f: FileV)
    requires
        f.wf(),
    ensures
        spec_apply_chain(
            seq![
                Preprocessor::Compress(CompressPreprocessor),
                Preprocessor::Hash(HashPreprocessor),
            ],
            f,
        ) == spec_hash_rename((FileV { content: compressed_of(f.content), ..f })),
        spec_apply_chain(
            seq![
                Preprocessor::Hash(HashPreprocessor),
                Preprocessor::Compress(CompressPreprocessor),
            ],
            f,
        ) == (FileV { content: compressed_of(f.content), ..spec_hash_rename(f) }),
{
    let c = Preprocessor::Compress(CompressPreprocessor);
    let h = Preprocessor::Hash(HashPreprocessor);
    let ch = seq![c, h];
    let hc = seq![h, c];
    let fc = FileV { content: compressed_of(f.content), ..f };
    assert(ch.drop_first() =~= seq![h]);
    assert(hc.drop_first() =~= seq![c]);
    assert(seq![h].drop_first() =~= Seq::<Preprocessor>::empty());
    assert(seq![c].drop_first() =~= Seq::<Preprocessor>::empty());
    assert(spec_apply_chain(ch, f) == spec_apply_chain(seq![h], fc));
    assert(spec_apply_chain(seq![h], fc) == spec_apply_chain(
        Seq::<Preprocessor>::empty(),
        spec_hash_rename(fc),
    ));
    assert(spec_apply_chain(hc, f) == spec_apply_chain(seq![c], spec_hash_rename(f)));
    assert(spec_apply_chain(seq![c], spec_hash_rename(f)) == spec_apply_chain(
        Seq::<Preprocessor>::empty(),
        (FileV { content: compressed_of(f.content), ..spec_hash_rename(f) }),
    ));
}

/// Path mirroring: a processed file keeps its source path, and its
/// destination stays at the source's position relative to the source root,
/// moved under the destination root; only the file name may differ. With no
/// transforms registered the destination is exactly that mirrored path.
pub proof fn lemma_path_mirroring(cfg: ConfigV, sf: SourceFileV)
    requires
        spec_source_ok(cfg, sf),
    ensures
        spec_process(cfg, sf).source == sf.path,
        spec_process(cfg, sf).dest.len() == cfg.dist.len() + sf.path.len() - cfg.assets.len(),
        spec_process(cfg, sf).dest.drop_last() == (cfg.dist + sf.path.skip(
            cfg.assets.len() as int,
        )).drop_last(),
        cfg.preprocessors.len() == 0 ==> spec_process(cfg, sf).dest == cfg.dist + sf.path.skip(
            cfg.assets.len() as int,
        ),
{
    let staged = spec_staged(cfg, sf);
    assert(staged.dest.last() == sf.path.last());
    assert(staged.wf());
    lemma_chain_preserves(cfg.preprocessors, staged);
}

/// The rename transform never changes content, so a second application
/// embeds the very same checksum text as the first.
pub proof fn lemma_hash_rename_idempotent_checksum(f: FileV)
    ensures
        spec_hash_rename(f).content == f.content,
        spec_hash_rename(spec_hash_rename(f)).content == f.content,
        spec_hash_hex(spec_hash_rename(f).content) == spec_hash_hex(f.content),
{
}

} // verus!
