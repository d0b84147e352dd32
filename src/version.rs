use vstd::prelude::*;
use vstd::string::StrSliceExecFns;
use vstd::string::StringExecFns;

verus! {

/// Metadata fixed when the server binary is built.
#[derive(Clone, Debug)]
pub struct BuildInfo {
    /// The declared semantic version.
    pub version: String,
    /// A hash identifying the build (a commit hash).
    pub hash: String,
    /// The build date; its first ten characters are an ISO-8601 date.
    pub date: String,
    /// Whether this is a development (debug) build.
    pub debug: bool,
    /// The license identifier.
    pub license: String,
    /// The author list.
    pub authors: String,
    /// The target triple the binary was built for.
    pub target: String,
}

impl BuildInfo {
    /// The hash has at least nine usable characters and the date at least ten.
    pub open spec fn wf(&self) -> bool {
        &&& self.hash@.len() >= 9
        &&& self.date@.len() >= 10
    }

    /// The first ten characters of the build date.
    pub open spec fn date_prefix(&self) -> Seq<char> {
        self.date@.subrange(0, 10)
    }

    /// `dev-` and the first nine characters of the hash in a debug build,
    /// the semantic version otherwise.
    pub open spec fn version_segment(&self) -> Seq<char> {
        if self.debug {
            "dev-"@ + self.hash@.subrange(0, 9)
        } else {
            self.version@
        }
    }
}

/// `inferno <version-segment>.<product>.<date-prefix>`.
pub open spec fn version_string(build: BuildInfo, product: Seq<char>) -> Seq<char> {
    "inferno "@ + build.version_segment() + "."@ + product + "."@ + build.date_prefix()
}

/// The version string of `product` for this build.
pub fn get_version(build: &BuildInfo, product: &str) -> (r: String)
    requires
        build.wf(),
    ensures
        r@ == version_string(*build, product@),
{
    let mut r = String::from_str("inferno ");
    if build.debug {
        r.append("dev-");
        r.append(build.hash.as_str().substring_char(0, 9));
    } else {
        r.append(build.version.as_str());
    }
    r.append(".");
    r.append(product);
    r.append(".");
    r.append(build.date.as_str().substring_char(0, 10));
    assert(r@ =~= version_string(*build, product@));
    r
}

/// The version string of a product is `inferno `, the version segment, a dot,
/// the product, a dot and the ten-character date prefix; the segment is
/// `dev-` and nine hash characters in a debug build, the semantic version in
/// a release build.
pub proof fn lemma_version_shape(build: BuildInfo, product: Seq<char>)
    requires
        build.wf(),
    ensures
        version_string(build, product) == "inferno "@ + build.version_segment() + "."@ + product
            + "."@ + build.date_prefix(),
        build.date_prefix().len() == 10,
        build.date_prefix() == build.date@.subrange(0, 10),
        build.debug ==> build.version_segment() == "dev-"@ + build.hash@.subrange(0, 9)
            && build.version_segment().len() == 13,
        !build.debug ==> build.version_segment() == build.version@,
{
    reveal_strlit("dev-");
}

/// The lines printed in version mode: the version string of the server and,
/// when `verbose` is set, one labelled line for each piece of build metadata.
pub open spec fn version_report_lines(build: BuildInfo, verbose: bool) -> Seq<Seq<char>> {
    let head = seq![version_string(build, "server"@)];
    if verbose {
        head + seq![
            "release: "@ + build.version@,
            "commit-hash: "@ + build.hash@,
            "commit-date: "@ + build.date_prefix(),
            "license: "@ + build.license@,
            "authors: "@ + build.authors@,
            "build-target: "@ + build.target@,
        ]
    } else {
        head
    }
}

fn labelled(label: &str, value: &str) -> (r: String)
    ensures
        r@ == label@ + value@,
{
    let mut r = String::from_str(label);
    r.append(value);
    r
}

/// The lines to print when the server is asked for its version.
pub fn version_report(build: &BuildInfo, verbose: bool) -> (r: Vec<String>)
    requires
        build.wf(),
    ensures
        r@.map_values(|s: String| s@) == version_report_lines(*build, verbose),
{
    let mut r: Vec<String> = Vec::new();
    r.push(get_version(build, "server"));
    if verbose {
        r.push(labelled("release: ", build.version.as_str()));
        r.push(labelled("commit-hash: ", build.hash.as_str()));
        r.push(labelled("commit-date: ", build.date.as_str().substring_char(0, 10)));
        r.push(labelled("license: ", build.license.as_str()));
        r.push(labelled("authors: ", build.authors.as_str()));
        r.push(labelled("build-target: ", build.target.as_str()));
    }
    assert(r@.map_values(|s: String| s@) =~= version_report_lines(*build, verbose));
    r
}

} // verus!
