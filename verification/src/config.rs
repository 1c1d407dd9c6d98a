//! The pipeline configuration and its engine: an immutable-after-build
//! description of the run, assembled fluently, then consumed once.

use crate::compress::CompressPreprocessor;
use crate::file::File;
use crate::file::FileV;
use crate::file::Preprocess;
use crate::hash::HashPreprocessor;
use crate::ident::sanitize_identifier;
use crate::ident::spec_identifier;
use crate::paths::AssetPath;
use vstd::prelude::*;
use vstd::string::StringExecFns;

verus! {

/// The transforms this pipeline can register, as one storable value.
#[derive(Clone, Copy)]
pub enum Preprocessor {
    Compress(CompressPreprocessor),
    Hash(HashPreprocessor),
}

impl Preprocess for Preprocessor {
    open spec fn spec_preprocess(&self, f: FileV) -> FileV {
        match self {
            Preprocessor::Compress(p) => p.spec_preprocess(f),
            Preprocessor::Hash(p) => p.spec_preprocess(f),
        }
    }

    fn preprocess(&self, file: &mut File) {
        match self {
            Preprocessor::Compress(p) => p.preprocess(file),
            Preprocessor::Hash(p) => p.preprocess(file),
        }
    }
}

/// The abstract state of a configuration.
pub ghost struct ConfigV {
    pub dist: Seq<Seq<char>>,
    pub assets: Seq<Seq<char>>,
    pub prefix: Seq<char>,
    pub preprocessors: Seq<Preprocessor>,
}

/// Where to read, where to write, what prefix public paths carry, and which
/// transforms run, in registration order.
pub struct Config {
    pub dist: AssetPath,
    pub assets: AssetPath,
    pub prefix: String,
    pub preprocessors: Vec<Preprocessor>,
}

impl View for Config {
    type V = ConfigV;

    open spec fn view(&self) -> ConfigV {
        ConfigV {
            dist: self.dist@,
            assets: self.assets@,
            prefix: self.prefix@,
            preprocessors: self.preprocessors@,
        }
    }
}

impl Config {
    /// The conventional defaults: destination `dist`, source `src/assets`,
    /// prefix `/`, and no transforms.
    pub fn new() -> (r: Config)
        ensures
            r@.dist == seq!["dist"@],
            r@.assets == seq!["src"@, "assets"@],
            r@.prefix == "/"@,
            r@.preprocessors == Seq::<Preprocessor>::empty(),
    {
        let mut dist = AssetPath::new();
        dist.push("dist".to_owned());
        let mut assets = AssetPath::new();
        assets.push("src".to_owned());
        assets.push("assets".to_owned());
        let r = Config { dist, assets, prefix: "/".to_owned(), preprocessors: Vec::new() };
        proof {
            assert(r@.dist =~= seq!["dist"@]);
            assert(r@.assets =~= seq!["src"@, "assets"@]);
        }
        r
    }

    pub fn set_dist(self, dist: AssetPath) -> (r: Config)
        ensures
            r@ == (ConfigV { dist: dist@, ..self@ }),
    {
        Config { dist, ..self }
    }

    pub fn set_assets(self, assets: AssetPath) -> (r: Config)
        ensures
            r@ == (ConfigV { assets: assets@, ..self@ }),
    {
        Config { assets, ..self }
    }

    pub fn set_prefix(self, prefix: String) -> (r: Config)
        ensures
            r@ == (ConfigV { prefix: prefix@, ..self@ }),
    {
        Config { prefix, ..self }
    }

    /// Append one transform; registration order is execution order.
    pub fn add_preprocessor(self, preprocessor: Preprocessor) -> (r: Config)
        ensures
            r@ == (ConfigV { preprocessors: self@.preprocessors.push(preprocessor), ..self@ }),
    {
        let mut updated = self;
        updated.preprocessors.push(preprocessor);
        updated
    }
}

/// One discovered regular file: its full source path and its bytes.
pub struct SourceFile {
    pub path: AssetPath,
    pub content: Vec<u8>,
}

/// The abstract state of a discovered file.
pub ghost struct SourceFileV {
    pub path: Seq<Seq<char>>,
    pub content: Seq<u8>,
}

impl View for SourceFile {
    type V = SourceFileV;

    open spec fn view(&self) -> SourceFileV {
        SourceFileV { path: self.path@, content: self.content@ }
    }
}

/// One manifest association: a sanitized identifier and the public path it
/// names.
pub struct ManifestEntry {
    pub identifier: String,
    pub public_path: String,
}

/// The abstract state of a manifest entry.
pub ghost struct ManifestEntryV {
    pub identifier: Seq<char>,
    pub public_path: Seq<char>,
}

impl View for ManifestEntry {
    type V = ManifestEntryV;

    open spec fn view(&self) -> ManifestEntryV {
        ManifestEntryV { identifier: self.identifier@, public_path: self.public_path@ }
    }
}

/// Everything one run produces: the transformed files to write, the manifest
/// entries in discovery order, and the serialized manifest text.
pub struct RunOutput {
    pub files: Vec<File>,
    pub entries: Vec<ManifestEntry>,
    pub manifest: String,
}

/// The views of a discovered-file list, in order.
pub open spec fn spec_views(files: Seq<SourceFile>) -> Seq<SourceFileV> {
    files.map_values(|sf: SourceFile| sf@)
}

/// A source file the pipeline can stage: it lies below the configured source
/// root and names a file.
pub open spec fn spec_source_ok(cfg: ConfigV, sf: SourceFileV) -> bool {
    cfg.assets.is_prefix_of(sf.path) && sf.path.len() > cfg.assets.len() && sf.path.last().len()
        > 0
}

/// The staged file as discovery builds it: the destination mirrors the
/// source's position relative to the source root.
pub open spec fn spec_staged(cfg: ConfigV, sf: SourceFileV) -> FileV {
    FileV {
        source: sf.path,
        dest: cfg.dist + sf.path.skip(cfg.assets.len() as int),
        content: sf.content,
    }
}

/// The ordered transforms folded over a staged file, first registered first.
pub open spec fn spec_apply_chain(ps: Seq<Preprocessor>, f: FileV) -> FileV
    decreases ps.len(),
{
    if ps.len() == 0 {
        f
    } else {
        spec_apply_chain(ps.drop_first(), ps.first().spec_preprocess(f))
    }
}

/// Folding a chain extended by one transform applies that transform last.
pub proof fn lemma_apply_chain_snoc(ps: Seq<Preprocessor>, p: Preprocessor, f: FileV)
    ensures
        spec_apply_chain(ps.push(p), f) == p.spec_preprocess(spec_apply_chain(ps, f)),
    decreases ps.len(),
{
    if ps.len() == 0 {
        assert(ps.push(p).drop_first() =~= Seq::<Preprocessor>::empty());
        assert(ps.push(p).first() == p);
        assert(spec_apply_chain(ps.push(p), f) == spec_apply_chain(
            Seq::<Preprocessor>::empty(),
            p.spec_preprocess(f),
        ));
        assert(spec_apply_chain(Seq::<Preprocessor>::empty(), p.spec_preprocess(f))
            == p.spec_preprocess(f));
        assert(spec_apply_chain(ps, f) == f);
    } else {
        assert(ps.push(p).drop_first() =~= ps.drop_first().push(p));
        assert(ps.push(p).first() == ps.first());
        assert(spec_apply_chain(ps.push(p), f) == spec_apply_chain(
            ps.drop_first().push(p),
            ps.first().spec_preprocess(f),
        ));
        lemma_apply_chain_snoc(ps.drop_first(), p, ps.first().spec_preprocess(f));
        assert(spec_apply_chain(ps, f) == spec_apply_chain(
            ps.drop_first(),
            ps.first().spec_preprocess(f),
        ));
    }
}

/// A discovered file after staging and every configured transform.
pub open spec fn spec_process(cfg: ConfigV, sf: SourceFileV) -> FileV {
    spec_apply_chain(cfg.preprocessors, spec_staged(cfg, sf))
}

/// The manifest entry of one discovered file: the identifier comes from the
/// original file name, the public path from the final destination name.
pub open spec fn spec_entry(cfg: ConfigV, sf: SourceFileV) -> ManifestEntryV {
    ManifestEntryV {
        identifier: spec_identifier(sf.path.last()),
        public_path: cfg.prefix + spec_process(cfg, sf).dest.last(),
    }
}

/// One manifest line: a constant declaration binding the identifier to the
/// public path.
pub open spec fn spec_line(e: ManifestEntryV) -> Seq<char> {
    "\npub const "@ + e.identifier + ": &str = \""@ + e.public_path + "\";"@
}

/// The manifest text: every discovered file's line, in discovery order.
pub open spec fn spec_manifest(cfg: ConfigV, sfs: Seq<SourceFileV>) -> Seq<char>
    decreases sfs.len(),
{
    if sfs.len() == 0 {
        Seq::empty()
    } else {
        spec_manifest(cfg, sfs.drop_last()) + spec_line(spec_entry(cfg, sfs.last()))
    }
}

impl File {
    /// Stage one discovered file: the destination starts as the destination
    /// root plus the source's path relative to the source root.
    pub fn from(source: AssetPath, content: Vec<u8>, config: &Config) -> (r: File)
        requires
            spec_source_ok(config@, SourceFileV { path: source@, content: content@ }),
        ensures
            r@ == spec_staged(config@, SourceFileV { path: source@, content: content@ }),
            r@.wf(),
    {
        let mut dest = config.dist.duplicate();
        let alen = config.assets.len();
        let slen = source.len();
        let mut i: usize = alen;
        while i < slen
            invariant
                alen <= i <= slen,
                alen == config@.assets.len(),
                slen == source@.len(),
                dest@ == config@.dist + source@.subrange(alen as int, i as int),
            decreases slen - i,
        {
            let ghost before = dest@;
            dest.push(source.get(i).clone());
            proof {
                assert(source@.subrange(alen as int, i + 1).drop_last() =~= source@.subrange(
                    alen as int,
                    i as int,
                ));
                assert(dest@ =~= config@.dist + source@.subrange(alen as int, i + 1));
            }
            i = i + 1;
        }
        proof {
            assert(source@.subrange(alen as int, slen as int) =~= source@.skip(alen as int));
            assert(dest@.last() == source@.last());
        }
        File { source, dest, content }
    }
}

impl Config {
    /// Run the pipeline over the discovered files: stage each one, apply the
    /// transforms in registration order, and accumulate one manifest entry
    /// per file, in discovery order.
    pub fn run(self, files: Vec<SourceFile>) -> (r: RunOutput)
        requires
            forall|i: int|
                0 <= i < files@.len() ==> spec_source_ok(self@, (#[trigger] files@[i])@),
        ensures
            r.files@.len() == files@.len(),
            r.entries@.len() == files@.len(),
            forall|i: int|
                0 <= i < files@.len() ==> (#[trigger] r.files@[i])@ == spec_process(
                    self@,
                    files@[i]@,
                ),
            forall|i: int|
                0 <= i < files@.len() ==> (#[trigger] r.entries@[i])@ == spec_entry(
                    self@,
                    files@[i]@,
                ),
            r.manifest@ == spec_manifest(self@, spec_views(files@)),
    {
        let mut out_files: Vec<File> = Vec::new();
        let mut entries: Vec<ManifestEntry> = Vec::new();
        let mut manifest = String::new();
        let nfiles = files.len();
        let mut i: usize = 0;
        while i < nfiles
            invariant
                i <= nfiles,
                nfiles == files@.len(),
                forall|k: int|
                    0 <= k < files@.len() ==> spec_source_ok(self@, (#[trigger] files@[k])@),
                out_files@.len() == i,
                entries@.len() == i,
                forall|k: int|
                    0 <= k < i ==> (#[trigger] out_files@[k])@ == spec_process(self@, files@[k]@),
                forall|k: int|
                    0 <= k < i ==> (#[trigger] entries@[k])@ == spec_entry(self@, files@[k]@),
                manifest@ == spec_manifest(self@, spec_views(files@).take(i as int)),
            decreases nfiles - i,
        {
            let source = files[i].path.duplicate();
            let content = vstd::slice::slice_to_vec(files[i].content.as_slice());
            proof {
                assert(SourceFileV { path: source@, content: content@ } == files@[i as int]@);
            }
            let mut file = File::from(source, content, &self);
            let ghost staged = file@;
            let nps = self.preprocessors.len();
            let mut j: usize = 0;
            while j < nps
                invariant
                    j <= nps,
                    nps == self@.preprocessors.len(),
                    file@ == spec_apply_chain(self@.preprocessors.take(j as int), staged),
                    file@.wf(),
                    file@.source == staged.source,
                decreases nps - j,
            {
                let p = self.preprocessors[j];
                p.preprocess(&mut file);
                proof {
                    lemma_apply_chain_snoc(
                        self@.preprocessors.take(j as int),
                        self@.preprocessors[j as int],
                        staged,
                    );
                    assert(self@.preprocessors.take(j + 1) =~= self@.preprocessors.take(
                        j as int,
                    ).push(self@.preprocessors[j as int]));
                }
                j = j + 1;
            }
            proof {
                assert(self@.preprocessors.take(nps as int) =~= self@.preprocessors);
                assert(file@ == spec_process(self@, files@[i as int]@));
            }
            let src_len = file.source.len();
            let src_name = file.source.get(src_len - 1);
            proof {
                assert(src_name@ == files@[i as int]@.path.last());
            }
            let identifier = sanitize_identifier(src_name.as_str());
            let dest_len = file.dest.len();
            let dest_name = file.dest.get(dest_len - 1);
            let mut public_path = self.prefix.clone();
            public_path.append(dest_name.as_str());
            let entry = ManifestEntry { identifier, public_path };
            let ghost manifest_before = manifest@;
            manifest.append("\npub const ");
            manifest.append(entry.identifier.as_str());
            manifest.append(": &str = \"");
            manifest.append(entry.public_path.as_str());
            manifest.append("\";");
            proof {
                assert(entry@ == spec_entry(self@, files@[i as int]@));
                assert(manifest@ =~= manifest_before + spec_line(entry@));
                assert(spec_views(files@).take(i + 1).drop_last() =~= spec_views(files@).take(
                    i as int,
                ));
                assert(spec_views(files@).take(i + 1).last() == files@[i as int]@);
                assert(manifest@ == spec_manifest(self@, spec_views(files@).take(i + 1)));
            }
            out_files.push(file);
            entries.push(entry);
            i = i + 1;
        }
        proof {
            assert(spec_views(files@).take(nfiles as int) =~= spec_views(files@));
        }
        RunOutput { files: out_files, entries, manifest }
    }
}

/// A fresh default configuration, ready for fluent chaining.
pub fn configure() -> (r: Config)
    ensures
        r@.dist == seq!["dist"@],
        r@.assets == seq!["src"@, "assets"@],
        r@.prefix == "/"@,
        r@.preprocessors == Seq::<Preprocessor>::empty(),
{
    Config::new()
}

} // verus!
