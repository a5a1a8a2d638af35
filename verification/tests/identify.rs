use locs::identify::identify;
use locs::language::Language;

#[test]
fn exact_filenames_win() {
    assert_eq!(identify("Dockerfile"), Language::Dockerfile);
    assert_eq!(identify("CMakeLists.txt"), Language::CMake);
    assert_eq!(identify("Makefile"), Language::Makefile);
    assert_eq!(identify("LICENSE"), Language::Txt);
    assert_eq!(identify("Cargo.lock"), Language::Txt);
}

#[test]
fn extensions_identify_languages() {
    assert_eq!(identify("main.rs"), Language::Rust);
    assert_eq!(identify("a.c"), Language::C);
    assert_eq!(identify("a.hpp"), Language::C);
    assert_eq!(identify("view.vue"), Language::VueJs);
    assert_eq!(identify("notes.md"), Language::Markdown);
    assert_eq!(identify("conf.yml"), Language::Yaml);
    assert_eq!(identify("conf.yaml"), Language::Yaml);
    assert_eq!(identify("style.scss"), Language::Css);
    assert_eq!(identify("run.bash"), Language::Shell);
    assert_eq!(identify("paper.bib"), Language::Tex);
    assert_eq!(identify("module.cmake"), Language::CMake);
    assert_eq!(identify("shader.glsl"), Language::Shader);
}

#[test]
fn extension_match_is_case_insensitive() {
    assert_eq!(identify("MAIN.RS"), Language::Rust);
    assert_eq!(identify("photo.JPEG"), Language::Asset);
    assert_eq!(identify("Data.Csv"), Language::Csv);
}

#[test]
fn assets_are_identified_but_not_textual() {
    assert_eq!(identify("photo.png"), Language::Asset);
    assert_eq!(identify("font.woff2"), Language::Asset);
    assert_eq!(identify("song.mp3"), Language::Asset);
}

#[test]
fn every_name_gets_exactly_one_language() {
    // Unknown, hidden, dotless and degenerate names all fall back to the
    // one generic tag; nothing is left unclassified.
    assert_eq!(identify("mystery.zzz"), Language::Generic);
    assert_eq!(identify(".gitignore"), Language::Generic);
    assert_eq!(identify("README"), Language::Generic);
    assert_eq!(identify("trailing."), Language::Generic);
    assert_eq!(identify(""), Language::Generic);
    assert_eq!(identify("archive.tar.gz"), Language::Generic);
}

#[test]
fn last_extension_decides() {
    assert_eq!(identify("bundle.min.js"), Language::Js);
    assert_eq!(identify(".hidden.rs"), Language::Rust);
}

#[test]
fn display_names_are_stable() {
    assert_eq!(Language::Rust.display_name(), "Rust");
    assert_eq!(Language::C.display_name(), "C/C++");
    assert_eq!(Language::Generic.display_name(), "Other");
    assert_eq!(Language::Tex.display_name(), "Tex/Latex");
    assert_eq!(Language::Asset.display_name(), "Asset");
}
