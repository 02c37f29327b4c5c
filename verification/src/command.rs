//! The fixed names and texts of a run: where the binary is fetched from, how
//! it is called, and the configuration file that it reads.

use vstd::prelude::*;
use vstd::string::*;
use crate::options::TailwindOptions;

verus! {

/// Where the latest release of each binary is published; the binary's name
/// follows the last slash.
pub const RELEASE_URL: &'static str =
    "https://github.com/tailwindlabs/tailwindcss/releases/latest/download/";

/// The configuration file that the tool reads from the working directory.
pub const CONFIG_FILE: &'static str = "tailwind.config.js";

/// The configuration that is written where the project has none: the tool
/// searches all Rust files in `src` and all HTML files in `static`.
pub const DEFAULT_CONFIG: &'static str =
    "module.exports = {\n  content: [\"./src/**/*.rs\", \"./static/**/*.html\"],\n  theme: {\n    extend: {},\n  },\n  plugins: [],\n};\n";

/// The address of the release binary called `name`.
pub open spec fn spec_download_url(name: Seq<char>) -> Seq<char> {
    RELEASE_URL@ + name
}

/// The path by which the binary called `name` is run from the working
/// directory.
pub open spec fn spec_program_path(name: Seq<char>) -> Seq<char> {
    "./"@ + name
}

/// The arguments of a run: the input file after `-i`, the output file after
/// `-o`, and `--minify` at the end of a release build's.
pub open spec fn spec_args(in_file: Seq<char>, out_file: Seq<char>, release: bool) -> Seq<
    Seq<char>,
> {
    let paths = seq!["-i"@, in_file, "-o"@, out_file];
    if release {
        paths.push("--minify"@)
    } else {
        paths
    }
}

/// The bytes of the default configuration.
pub open spec fn spec_default_config() -> Seq<u8> {
    DEFAULT_CONFIG.spec_bytes()
}

/// Builds the address from which the binary called `name` is fetched.
pub fn download_url(name: &str) -> (url: String)
    ensures
        url@ == spec_download_url(name@),
{
    let mut url = String::from_str(RELEASE_URL);
    url.append(name);
    url
}

/// Builds the path by which the binary called `name` is run.
pub fn program_path(name: &str) -> (path: String)
    ensures
        path@ == spec_program_path(name@),
{
    let mut path = String::from_str("./");
    path.append(name);
    path
}

/// Builds the argument list for the given files.
pub fn build_args(options: &TailwindOptions, release: bool) -> (args: Vec<String>)
    ensures
        args.deep_view() == spec_args(options.in_file@, options.out_file@, release),
{
    let mut args: Vec<String> = Vec::new();
    args.push(String::from_str("-i"));
    args.push(options.in_file.clone());
    args.push(String::from_str("-o"));
    args.push(options.out_file.clone());
    if release {
        args.push(String::from_str("--minify"));
    }
    assert(args.deep_view() =~= spec_args(options.in_file@, options.out_file@, release));
    args
}

/// The default configuration, as the bytes to write.
pub fn default_config() -> (bytes: Vec<u8>)
    ensures
        bytes@ == spec_default_config(),
{
    DEFAULT_CONFIG.as_bytes_vec()
}

} // verus!
