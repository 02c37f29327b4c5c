use perseus_tailwind::command::{
    build_args, default_config, download_url, program_path, CONFIG_FILE, DEFAULT_CONFIG,
    RELEASE_URL,
};
use perseus_tailwind::TailwindOptions;

fn options(in_file: &str, out_file: &str) -> TailwindOptions {
    TailwindOptions { in_file: in_file.to_string(), out_file: out_file.to_string() }
}

#[test]
fn debug_build_passes_input_and_output() {
    let args = build_args(&options("a.css", "b.css"), false);
    assert_eq!(args, vec!["-i", "a.css", "-o", "b.css"]);
}

#[test]
fn release_build_also_minifies() {
    let args = build_args(&options("a.css", "b.css"), true);
    assert_eq!(args, vec!["-i", "a.css", "-o", "b.css", "--minify"]);
}

#[test]
fn paths_are_passed_on_unchanged() {
    let args = build_args(&options("src/tail wind.css", "dist/\u{e9}t\u{e9}.css"), false);
    assert_eq!(args, vec!["-i", "src/tail wind.css", "-o", "dist/\u{e9}t\u{e9}.css"]);
    let args = build_args(&options("", ""), true);
    assert_eq!(args, vec!["-i", "", "-o", "", "--minify"]);
}

#[test]
fn options_are_left_as_they_were() {
    let options = options("src/tailwind.css", "dist/tailwind.css");
    let _ = build_args(&options, true);
    assert_eq!(options.in_file, "src/tailwind.css");
    assert_eq!(options.out_file, "dist/tailwind.css");
}

#[test]
fn download_url_ends_with_the_binary_name() {
    assert_eq!(
        download_url("tailwindcss-linux-x64"),
        "https://github.com/tailwindlabs/tailwindcss/releases/latest/download/tailwindcss-linux-x64"
    );
    assert_eq!(
        download_url("tailwindcss-windows-x64.exe"),
        "https://github.com/tailwindlabs/tailwindcss/releases/latest/download/tailwindcss-windows-x64.exe"
    );
    assert_eq!(download_url(""), RELEASE_URL);
}

#[test]
fn program_is_run_from_the_working_directory() {
    assert_eq!(program_path("tailwindcss-macos-arm64"), "./tailwindcss-macos-arm64");
    assert_eq!(program_path(""), "./");
}

#[test]
fn config_file_has_its_fixed_name() {
    assert_eq!(CONFIG_FILE, "tailwind.config.js");
}

#[test]
fn default_config_is_the_bundled_text() {
    let bytes = default_config();
    assert_eq!(bytes, DEFAULT_CONFIG.as_bytes());
    let text = String::from_utf8(bytes).unwrap();
    assert!(text.starts_with("module.exports = {"));
    assert!(text.contains("./src/**/*.rs"));
    assert!(text.contains("./static/**/*.html"));
}
