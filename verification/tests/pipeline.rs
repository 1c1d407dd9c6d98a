use preprocess::AssetPath;
use preprocess::Config;
use preprocess::ConfigCompressPreprocessorExt;
use preprocess::ConfigHashPreprocessorExt;
use preprocess::File;
use preprocess::HashPreprocessor;
use preprocess::Preprocess;
use preprocess::SourceFile;
use preprocess::configure;
use preprocess::sanitize_identifier;
use std::io::Read;
use std::io::Write;

fn path(components: &[&str]) -> AssetPath {
    AssetPath { components: components.iter().map(|c| c.to_string()).collect() }
}

fn source_file(components: &[&str], content: &[u8]) -> SourceFile {
    SourceFile { path: path(components), content: content.to_vec() }
}

fn brotli_bytes(data: &[u8]) -> Vec<u8> {
    let mut out = Vec::new();
    brotli::CompressorWriter::new(&mut out, 0, 11, 22)
        .write_all(data)
        .unwrap();
    out
}

fn checksum_hex(data: &[u8]) -> String {
    hex::encode(crc32fast::hash(data).to_le_bytes())
}

#[test]
fn sanitize_spaces_dots_and_case() {
    assert_eq!(sanitize_identifier("My Logo.v2.png"), "MY_LOGO_V2_PNG");
}

#[test]
fn sanitize_drops_other_punctuation() {
    assert_eq!(sanitize_identifier("a-b!c.txt"), "ABC_TXT");
    assert_eq!(sanitize_identifier(""), "");
    assert_eq!(sanitize_identifier("never-gonna-give-you-up.gif"), "NEVERGONNAGIVEYOUUP_GIF");
}

#[test]
fn sanitize_uses_unicode_uppercase() {
    assert_eq!(sanitize_identifier("\u{131}.x"), "I_X");
    assert_eq!(sanitize_identifier("\u{e9}.x"), "_X");
}

#[test]
fn empty_run_is_a_no_op() {
    let out = configure().run(Vec::new());
    assert_eq!(out.files.len(), 0);
    assert_eq!(out.entries.len(), 0);
    assert_eq!(out.manifest, "");
}

#[test]
fn pure_copy_mirrors_paths() {
    let config = configure()
        .set_dist(path(&["dist"]))
        .set_assets(path(&["src", "assets"]));
    let files = vec![source_file(&["src", "assets", "a", "b", "c.txt"], b"hello")];
    let out = config.run(files);
    assert_eq!(out.files.len(), 1);
    assert_eq!(out.files[0].dest.components, vec!["dist", "a", "b", "c.txt"]);
    assert_eq!(out.files[0].content, b"hello");
    assert_eq!(out.entries[0].identifier, "C_TXT");
    assert_eq!(out.entries[0].public_path, "/c.txt");
    assert_eq!(out.manifest, "\npub const C_TXT: &str = \"/c.txt\";");
}

#[test]
fn hash_rename_embeds_known_checksum() {
    let expected = checksum_hex(b"hello");
    assert_eq!(expected, "86a61036");
    let config = configure().set_assets(path(&["src", "assets"])).hash();
    let files = vec![source_file(&["src", "assets", "x.txt"], b"hello")];
    let out = config.run(files);
    assert_eq!(out.files[0].dest.components, vec!["dist", "x.86a61036.txt"]);
    assert_eq!(out.files[0].content, b"hello");
    assert_eq!(out.entries[0].public_path, "/x.86a61036.txt");
}

#[test]
fn hash_rename_without_extension() {
    let h = checksum_hex(b"data");
    let config = configure().hash();
    let files = vec![source_file(&["src", "assets", "README"], b"data")];
    let out = config.run(files);
    assert_eq!(
        out.files[0].dest.components,
        vec!["dist".to_string(), format!("README.{}", h)]
    );
}

#[test]
fn hash_rename_on_leading_dot_name() {
    let h = checksum_hex(b"data");
    let config = configure().hash();
    let files = vec![source_file(&["src", "assets", ".gitignore"], b"data")];
    let out = config.run(files);
    assert_eq!(
        out.files[0].dest.components,
        vec!["dist".to_string(), format!(".gitignore.{}", h)]
    );
}

#[test]
fn order_of_transforms_decides_the_checksum() {
    let content = b"some asset bytes worth compressing, repeated and repeated again";
    let compressed = brotli_bytes(content);
    let hash_after = checksum_hex(&compressed);
    let hash_before = checksum_hex(content);
    assert_ne!(hash_after, hash_before);

    let config = configure().compress().hash();
    let out = config.run(vec![source_file(&["src", "assets", "a.bin"], content)]);
    assert_eq!(
        out.files[0].dest.components,
        vec!["dist".to_string(), format!("a.{}.bin", hash_after)]
    );
    assert_eq!(out.files[0].content, compressed);

    let config = configure().hash().compress();
    let out = config.run(vec![source_file(&["src", "assets", "a.bin"], content)]);
    assert_eq!(
        out.files[0].dest.components,
        vec!["dist".to_string(), format!("a.{}.bin", hash_before)]
    );
    assert_eq!(out.files[0].content, compressed);
}

#[test]
fn hash_rename_keys_off_the_destination_name() {
    let h = checksum_hex(b"bytes");
    let mut file = File {
        source: path(&["src", "assets", "x"]),
        dest: path(&["dist", "y.txt"]),
        content: b"bytes".to_vec(),
    };
    HashPreprocessor.preprocess(&mut file);
    assert_eq!(
        file.dest.components,
        vec!["dist".to_string(), format!("y.{}.txt", h)]
    );
}

#[test]
fn hash_rename_twice_embeds_the_same_checksum() {
    let h = checksum_hex(b"bytes");
    let mut file = File {
        source: path(&["src", "assets", "x.txt"]),
        dest: path(&["dist", "x.txt"]),
        content: b"bytes".to_vec(),
    };
    let transform = HashPreprocessor;
    transform.preprocess(&mut file);
    assert_eq!(file.dest.components, vec!["dist".to_string(), format!("x.{}.txt", h)]);
    transform.preprocess(&mut file);
    assert_eq!(
        file.dest.components,
        vec!["dist".to_string(), format!("x.{}.{}.txt", h, h)]
    );
    assert_eq!(file.content, b"bytes");
}

#[test]
fn manifest_has_one_entry_per_file() {
    let config = configure().compress().hash();
    let files = vec![
        source_file(&["src", "assets", "one.png"], b"1"),
        source_file(&["src", "assets", "deep", "two.svg"], b"2"),
        source_file(&["src", "assets", "deep", "deeper", "three"], b"3"),
    ];
    let out = config.run(files);
    assert_eq!(out.files.len(), 3);
    assert_eq!(out.entries.len(), 3);
    assert_eq!(out.entries[0].identifier, "ONE_PNG");
    assert_eq!(out.entries[1].identifier, "TWO_SVG");
    assert_eq!(out.entries[2].identifier, "THREE");
}

#[test]
fn compressed_output_decompresses_to_the_original() {
    let content = b"round trip through the compression transform";
    let config = configure().compress();
    let out = config.run(vec![source_file(&["src", "assets", "a.bin"], content)]);
    let mut restored = Vec::new();
    brotli::Decompressor::new(&out.files[0].content[..], 4096)
        .read_to_end(&mut restored)
        .unwrap();
    assert_eq!(restored, content);
}

#[test]
fn end_to_end_two_assets() {
    let x = b"X";
    let y = b"Y";
    let hx = checksum_hex(&brotli_bytes(x));
    let hy = checksum_hex(&brotli_bytes(y));
    let config = configure()
        .set_prefix("/static/".to_string())
        .compress()
        .hash();
    let files = vec![
        source_file(&["src", "assets", "logo.png"], x),
        source_file(&["src", "assets", "icons", "a.svg"], y),
    ];
    let out = config.run(files);
    assert_eq!(out.files.len(), 2);
    assert_eq!(
        out.files[0].dest.components,
        vec!["dist".to_string(), format!("logo.{}.png", hx)]
    );
    assert_eq!(
        out.files[1].dest.components,
        vec!["dist".to_string(), "icons".to_string(), format!("a.{}.svg", hy)]
    );
    assert_eq!(
        out.manifest,
        format!(
            "\npub const LOGO_PNG: &str = \"/static/logo.{}.png\";\npub const A_SVG: &str = \"/static/a.{}.svg\";",
            hx, hy
        )
    );
}

#[test]
fn builder_defaults_and_setters() {
    let config = Config::new();
    assert_eq!(config.dist.components, vec!["dist"]);
    assert_eq!(config.assets.components, vec!["src", "assets"]);
    assert_eq!(config.prefix, "/");
    assert_eq!(config.preprocessors.len(), 0);

    let config = config
        .set_dist(path(&["out"]))
        .set_assets(path(&["media"]))
        .set_prefix("/cdn/".to_string());
    let out = config.run(vec![source_file(&["media", "logo.png"], b"bytes")]);
    assert_eq!(out.files[0].dest.components, vec!["out", "logo.png"]);
    assert_eq!(out.entries[0].public_path, "/cdn/logo.png");
}
