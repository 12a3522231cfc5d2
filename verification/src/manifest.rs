//! The fixed manifest: every directory and file the generator creates, in
//! creation order.
//!
//! The manifest is build-time data, never read from the user's working
//! directory.  Directories come before the files inside them, every output
//! segment is a sound path component free of the placeholder token, and
//! every file entry names a bundled template: `lemma_manifest_wf` proves
//! these facts once for the shipped table, so the defensive checks in the
//! planner are provably dead on it.  An entry is marked for substitution
//! exactly when its template text carries the token; the test suite holds
//! the marks to the bundle.

use vstd::prelude::*;
use vstd::string::*;
use crate::paths::{segment_ok, spec_is_separator};
use crate::subst::{has_token, lemma_short_no_token};
use crate::templates::{spec_template_body, spec_token};

verus! {

broadcast use vstd::string::group_string_axioms;

/// Whether a manifest entry names a directory to create or a file to write.
#[derive(Clone, Copy, PartialEq, Eq, Structural, Debug)]
pub enum EntryKind {
    Directory,
    File,
}

/// One step of the fixed manifest.
pub struct ManifestEntry {
    /// Where the template lives in the bundle; empty for directories.
    pub template_rel_path: String,
    /// The output location below the project root, one path segment each.
    pub output_segments: Vec<String>,
    /// Replace the placeholder token in the content before writing?
    pub substitute: bool,
    pub kind: EntryKind,
}

/// The mathematical image of a manifest entry.
#[verifier::ext_equal]
pub struct SpecEntry {
    pub template: Seq<char>,
    pub output: Seq<Seq<char>>,
    pub substitute: bool,
    pub kind: EntryKind,
}

impl View for ManifestEntry {
    type V = SpecEntry;

    open spec fn view(&self) -> SpecEntry {
        SpecEntry {
            template: self.template_rel_path@,
            output: self.output_segments@.map_values(|s: String| s@),
            substitute: self.substitute,
            kind: self.kind,
        }
    }
}

/// The shipped manifest, as specification-level data.
pub open spec fn spec_manifest() -> Seq<SpecEntry> {
    seq![
        SpecEntry { template: Seq::empty(), output: seq!["src"@], substitute: false, kind: EntryKind::Directory },
        SpecEntry { template: "Cargo.toml"@, output: seq!["Cargo.toml"@], substitute: true, kind: EntryKind::File },
        SpecEntry { template: "src/main.rs"@, output: seq!["src"@, "main.rs"@], substitute: true, kind: EntryKind::File },
        SpecEntry { template: "src/lib.rs"@, output: seq!["src"@, "lib.rs"@], substitute: false, kind: EntryKind::File },
        SpecEntry { template: Seq::empty(), output: seq!["src"@, "common"@], substitute: false, kind: EntryKind::Directory },
        SpecEntry { template: "src/common/mod.rs"@, output: seq!["src"@, "common"@, "mod.rs"@], substitute: false, kind: EntryKind::File },
        SpecEntry { template: "src/common/types.rs"@, output: seq!["src"@, "common"@, "types.rs"@], substitute: false, kind: EntryKind::File },
        SpecEntry { template: "src/common/validation.rs"@, output: seq!["src"@, "common"@, "validation.rs"@], substitute: false, kind: EntryKind::File },
        SpecEntry { template: Seq::empty(), output: seq!["src"@, "routes"@], substitute: false, kind: EntryKind::Directory },
        SpecEntry { template: "src/routes/mod.rs"@, output: seq!["src"@, "routes"@, "mod.rs"@], substitute: false, kind: EntryKind::File },
        SpecEntry { template: Seq::empty(), output: seq!["src"@, "process"@], substitute: false, kind: EntryKind::Directory },
        SpecEntry { template: "src/process/mod.rs"@, output: seq!["src"@, "process"@, "mod.rs"@], substitute: false, kind: EntryKind::File },
        SpecEntry { template: "src/process/processing.rs"@, output: seq!["src"@, "process"@, "processing.rs"@], substitute: false, kind: EntryKind::File },
        SpecEntry { template: Seq::empty(), output: seq!["src"@, "services"@], substitute: false, kind: EntryKind::Directory },
        SpecEntry { template: "src/services/lambda.rs"@, output: seq!["src"@, "services"@, "lambda.rs"@], substitute: true, kind: EntryKind::File },
        SpecEntry { template: "Makefile"@, output: seq!["Makefile"@], substitute: true, kind: EntryKind::File },
    ]
}

/// Well-formedness of a single entry: at least one output segment, every
/// segment acceptable and free of the placeholder token, and for files a
/// bundled template.
pub open spec fn entry_wf(e: SpecEntry) -> bool {
    &&& e.output.len() >= 1
    &&& forall|i: int| 0 <= i < e.output.len() ==> segment_ok(#[trigger] e.output[i])
    &&& forall|i: int| 0 <= i < e.output.len() ==> !has_token(#[trigger] e.output[i], spec_token())
    &&& (e.kind == EntryKind::File ==> spec_template_body(e.template) is Some)
}

/// The parent of entry `i` is the project root or a directory created by an
/// earlier entry.
pub open spec fn parent_created(m: Seq<SpecEntry>, i: int) -> bool {
    m[i].output.len() == 1 || exists|j: int|
        0 <= j < i && m[j].kind == EntryKind::Directory && #[trigger] m[j].output
            == m[i].output.drop_last()
}

/// Well-formedness of a whole manifest.
pub open spec fn manifest_wf(m: Seq<SpecEntry>) -> bool {
    &&& forall|i: int| 0 <= i < m.len() ==> entry_wf(#[trigger] m[i])
    &&& forall|i: int| 0 <= i < m.len() ==> parent_created(m, i)
}

/// The shipped manifest is well formed.
#[verifier::rlimit(100)]
pub proof fn lemma_manifest_wf()
    ensures
        manifest_wf(spec_manifest()),
{
    let m = spec_manifest();
    reveal_strlit("{{project-name}}");
    reveal_strlit("src");
    reveal_strlit("main.rs");
    reveal_strlit("lib.rs");
    reveal_strlit("common");
    reveal_strlit("mod.rs");
    reveal_strlit("types.rs");
    reveal_strlit("validation.rs");
    reveal_strlit("routes");
    reveal_strlit("process");
    reveal_strlit("processing.rs");
    reveal_strlit("services");
    reveal_strlit("lambda.rs");
    reveal_strlit("Cargo.toml");
    reveal_strlit("Makefile");
    reveal_strlit("..");
    reveal_strlit("src/main.rs");
    reveal_strlit("src/lib.rs");
    reveal_strlit("src/common/mod.rs");
    reveal_strlit("src/common/types.rs");
    reveal_strlit("src/common/validation.rs");
    reveal_strlit("src/routes/mod.rs");
    reveal_strlit("src/process/mod.rs");
    reveal_strlit("src/process/processing.rs");
    reveal_strlit("src/services/lambda.rs");
    assert forall|i: int, j: int|
        0 <= i < m.len() && 0 <= j < m[i].output.len() implies !has_token(
        #[trigger] m[i].output[j],
        spec_token(),
    ) by {
        lemma_short_no_token(m[i].output[j], spec_token());
    }
    assert(segment_ok("src"@)) by {
        reveal_strlit("src");
        reveal_strlit("..");
        assert forall|k: int| 0 <= k < "src"@.len() implies !spec_is_separator(
            #[trigger] "src"@[k],
        ) by {
            reveal_strlit("src");
        }
        assert("src"@.len() == 3);
        assert(".."@.len() == 2);
        assert("src"@ != ".."@);
    }
    assert(segment_ok("main.rs"@)) by {
        reveal_strlit("main.rs");
        reveal_strlit("..");
        assert forall|k: int| 0 <= k < "main.rs"@.len() implies !spec_is_separator(
            #[trigger] "main.rs"@[k],
        ) by {
            reveal_strlit("main.rs");
        }
        assert("main.rs"@.len() == 7);
        assert(".."@.len() == 2);
        assert("main.rs"@ != ".."@);
    }
    assert(segment_ok("lib.rs"@)) by {
        reveal_strlit("lib.rs");
        reveal_strlit("..");
        assert forall|k: int| 0 <= k < "lib.rs"@.len() implies !spec_is_separator(
            #[trigger] "lib.rs"@[k],
        ) by {
            reveal_strlit("lib.rs");
        }
        assert("lib.rs"@.len() == 6);
        assert(".."@.len() == 2);
        assert("lib.rs"@ != ".."@);
    }
    assert(segment_ok("common"@)) by {
        reveal_strlit("common");
        reveal_strlit("..");
        assert forall|k: int| 0 <= k < "common"@.len() implies !spec_is_separator(
            #[trigger] "common"@[k],
        ) by {
            reveal_strlit("common");
        }
        assert("common"@.len() == 6);
        assert(".."@.len() == 2);
        assert("common"@ != ".."@);
    }
    assert(segment_ok("mod.rs"@)) by {
        reveal_strlit("mod.rs");
        reveal_strlit("..");
        assert forall|k: int| 0 <= k < "mod.rs"@.len() implies !spec_is_separator(
            #[trigger] "mod.rs"@[k],
        ) by {
            reveal_strlit("mod.rs");
        }
        assert("mod.rs"@.len() == 6);
        assert(".."@.len() == 2);
        assert("mod.rs"@ != ".."@);
    }
    assert(segment_ok("types.rs"@)) by {
        reveal_strlit("types.rs");
        reveal_strlit("..");
        assert forall|k: int| 0 <= k < "types.rs"@.len() implies !spec_is_separator(
            #[trigger] "types.rs"@[k],
        ) by {
            reveal_strlit("types.rs");
        }
        assert("types.rs"@.len() == 8);
        assert(".."@.len() == 2);
        assert("types.rs"@ != ".."@);
    }
    assert(segment_ok("validation.rs"@)) by {
        reveal_strlit("validation.rs");
        reveal_strlit("..");
        assert forall|k: int| 0 <= k < "validation.rs"@.len() implies !spec_is_separator(
            #[trigger] "validation.rs"@[k],
        ) by {
            reveal_strlit("validation.rs");
        }
        assert("validation.rs"@.len() == 13);
        assert(".."@.len() == 2);
        assert("validation.rs"@ != ".."@);
    }
    assert(segment_ok("routes"@)) by {
        reveal_strlit("routes");
        reveal_strlit("..");
        assert forall|k: int| 0 <= k < "routes"@.len() implies !spec_is_separator(
            #[trigger] "routes"@[k],
        ) by {
            reveal_strlit("routes");
        }
        assert("routes"@.len() == 6);
        assert(".."@.len() == 2);
        assert("routes"@ != ".."@);
    }
    assert(segment_ok("process"@)) by {
        reveal_strlit("process");
        reveal_strlit("..");
        assert forall|k: int| 0 <= k < "process"@.len() implies !spec_is_separator(
            #[trigger] "process"@[k],
        ) by {
            reveal_strlit("process");
        }
        assert("process"@.len() == 7);
        assert(".."@.len() == 2);
        assert("process"@ != ".."@);
    }
    assert(segment_ok("processing.rs"@)) by {
        reveal_strlit("processing.rs");
        reveal_strlit("..");
        assert forall|k: int| 0 <= k < "processing.rs"@.len() implies !spec_is_separator(
            #[trigger] "processing.rs"@[k],
        ) by {
            reveal_strlit("processing.rs");
        }
        assert("processing.rs"@.len() == 13);
        assert(".."@.len() == 2);
        assert("processing.rs"@ != ".."@);
    }
    assert(segment_ok("services"@)) by {
        reveal_strlit("services");
        reveal_strlit("..");
        assert forall|k: int| 0 <= k < "services"@.len() implies !spec_is_separator(
            #[trigger] "services"@[k],
        ) by {
            reveal_strlit("services");
        }
        assert("services"@.len() == 8);
        assert(".."@.len() == 2);
        assert("services"@ != ".."@);
    }
    assert(segment_ok("lambda.rs"@)) by {
        reveal_strlit("lambda.rs");
        reveal_strlit("..");
        assert forall|k: int| 0 <= k < "lambda.rs"@.len() implies !spec_is_separator(
            #[trigger] "lambda.rs"@[k],
        ) by {
            reveal_strlit("lambda.rs");
        }
        assert("lambda.rs"@.len() == 9);
        assert(".."@.len() == 2);
        assert("lambda.rs"@ != ".."@);
    }
    assert(segment_ok("Cargo.toml"@)) by {
        reveal_strlit("Cargo.toml");
        reveal_strlit("..");
        assert forall|k: int| 0 <= k < "Cargo.toml"@.len() implies !spec_is_separator(
            #[trigger] "Cargo.toml"@[k],
        ) by {
            reveal_strlit("Cargo.toml");
        }
        assert("Cargo.toml"@.len() == 10);
        assert(".."@.len() == 2);
        assert("Cargo.toml"@ != ".."@);
    }
    assert(segment_ok("Makefile"@)) by {
        reveal_strlit("Makefile");
        reveal_strlit("..");
        assert forall|k: int| 0 <= k < "Makefile"@.len() implies !spec_is_separator(
            #[trigger] "Makefile"@[k],
        ) by {
            reveal_strlit("Makefile");
        }
        assert("Makefile"@.len() == 8);
        assert(".."@.len() == 2);
        assert("Makefile"@ != ".."@);
    }
    assert(spec_template_body("Cargo.toml"@) is Some);
    assert(spec_template_body("Makefile"@) is Some);
    assert(spec_template_body("src/main.rs"@) is Some);
    assert(spec_template_body("src/lib.rs"@) is Some);
    assert(spec_template_body("src/common/mod.rs"@) is Some);
    assert(spec_template_body("src/common/types.rs"@) is Some);
    assert(spec_template_body("src/common/validation.rs"@) is Some);
    assert(spec_template_body("src/routes/mod.rs"@) is Some);
    assert(spec_template_body("src/process/mod.rs"@) is Some);
    assert(spec_template_body("src/process/processing.rs"@) is Some);
    assert(spec_template_body("src/services/lambda.rs"@) is Some);
    assert(entry_wf(m[0]));
    assert(entry_wf(m[1]));
    assert(entry_wf(m[2]));
    assert(entry_wf(m[3]));
    assert(entry_wf(m[4]));
    assert(entry_wf(m[5]));
    assert(entry_wf(m[6]));
    assert(entry_wf(m[7]));
    assert(entry_wf(m[8]));
    assert(entry_wf(m[9]));
    assert(entry_wf(m[10]));
    assert(entry_wf(m[11]));
    assert(entry_wf(m[12]));
    assert(entry_wf(m[13]));
    assert(entry_wf(m[14]));
    assert(entry_wf(m[15]));
    assert forall|i: int| 0 <= i < m.len() implies entry_wf(#[trigger] m[i]) by {}
    assert(m[0].output == m[2].output.drop_last());
    assert(m[0].output == m[3].output.drop_last());
    assert(m[0].output == m[4].output.drop_last());
    assert(m[4].output == m[5].output.drop_last());
    assert(m[4].output == m[6].output.drop_last());
    assert(m[4].output == m[7].output.drop_last());
    assert(m[0].output == m[8].output.drop_last());
    assert(m[8].output == m[9].output.drop_last());
    assert(m[0].output == m[10].output.drop_last());
    assert(m[10].output == m[11].output.drop_last());
    assert(m[10].output == m[12].output.drop_last());
    assert(m[0].output == m[13].output.drop_last());
    assert(m[13].output == m[14].output.drop_last());
    assert forall|i: int| 0 <= i < m.len() implies parent_created(m, i) by {}
}

/// No two manifest entries name the same output.
pub proof fn lemma_manifest_outputs_distinct()
    ensures
        forall|i: int, j: int|
            0 <= i < j < spec_manifest().len() ==> spec_manifest()[i].output != spec_manifest()[
                j
            ].output,
{
    let m = spec_manifest();
    reveal_strlit("src");
    reveal_strlit("main.rs");
    reveal_strlit("lib.rs");
    reveal_strlit("common");
    reveal_strlit("mod.rs");
    reveal_strlit("types.rs");
    reveal_strlit("validation.rs");
    reveal_strlit("routes");
    reveal_strlit("process");
    reveal_strlit("processing.rs");
    reveal_strlit("services");
    reveal_strlit("lambda.rs");
    reveal_strlit("Cargo.toml");
    reveal_strlit("Makefile");
    assert("src"@.len() == 3);
    assert("main.rs"@.len() == 7);
    assert("lib.rs"@.len() == 6);
    assert("common"@.len() == 6);
    assert("mod.rs"@.len() == 6);
    assert("types.rs"@.len() == 8);
    assert("validation.rs"@.len() == 13);
    assert("routes"@.len() == 6);
    assert("process"@.len() == 7);
    assert("processing.rs"@.len() == 13);
    assert("services"@.len() == 8);
    assert("lambda.rs"@.len() == 9);
    assert("Cargo.toml"@.len() == 10);
    assert("Makefile"@.len() == 8);
    assert(m[0].output[0] == "src"@);
    assert(m[1].output[0] == "Cargo.toml"@);
    assert(m[0].output != m[1].output);
    assert(m[0].output.len() == 1);
    assert(m[2].output.len() == 2);
    assert(m[0].output != m[2].output);
    assert(m[0].output.len() == 1);
    assert(m[3].output.len() == 2);
    assert(m[0].output != m[3].output);
    assert(m[0].output.len() == 1);
    assert(m[4].output.len() == 2);
    assert(m[0].output != m[4].output);
    assert(m[0].output.len() == 1);
    assert(m[5].output.len() == 3);
    assert(m[0].output != m[5].output);
    assert(m[0].output.len() == 1);
    assert(m[6].output.len() == 3);
    assert(m[0].output != m[6].output);
    assert(m[0].output.len() == 1);
    assert(m[7].output.len() == 3);
    assert(m[0].output != m[7].output);
    assert(m[0].output.len() == 1);
    assert(m[8].output.len() == 2);
    assert(m[0].output != m[8].output);
    assert(m[0].output.len() == 1);
    assert(m[9].output.len() == 3);
    assert(m[0].output != m[9].output);
    assert(m[0].output.len() == 1);
    assert(m[10].output.len() == 2);
    assert(m[0].output != m[10].output);
    assert(m[0].output.len() == 1);
    assert(m[11].output.len() == 3);
    assert(m[0].output != m[11].output);
    assert(m[0].output.len() == 1);
    assert(m[12].output.len() == 3);
    assert(m[0].output != m[12].output);
    assert(m[0].output.len() == 1);
    assert(m[13].output.len() == 2);
    assert(m[0].output != m[13].output);
    assert(m[0].output.len() == 1);
    assert(m[14].output.len() == 3);
    assert(m[0].output != m[14].output);
    assert(m[0].output[0] == "src"@);
    assert(m[15].output[0] == "Makefile"@);
    assert(m[0].output != m[15].output);
    assert(m[1].output.len() == 1);
    assert(m[2].output.len() == 2);
    assert(m[1].output != m[2].output);
    assert(m[1].output.len() == 1);
    assert(m[3].output.len() == 2);
    assert(m[1].output != m[3].output);
    assert(m[1].output.len() == 1);
    assert(m[4].output.len() == 2);
    assert(m[1].output != m[4].output);
    assert(m[1].output.len() == 1);
    assert(m[5].output.len() == 3);
    assert(m[1].output != m[5].output);
    assert(m[1].output.len() == 1);
    assert(m[6].output.len() == 3);
    assert(m[1].output != m[6].output);
    assert(m[1].output.len() == 1);
    assert(m[7].output.len() == 3);
    assert(m[1].output != m[7].output);
    assert(m[1].output.len() == 1);
    assert(m[8].output.len() == 2);
    assert(m[1].output != m[8].output);
    assert(m[1].output.len() == 1);
    assert(m[9].output.len() == 3);
    assert(m[1].output != m[9].output);
    assert(m[1].output.len() == 1);
    assert(m[10].output.len() == 2);
    assert(m[1].output != m[10].output);
    assert(m[1].output.len() == 1);
    assert(m[11].output.len() == 3);
    assert(m[1].output != m[11].output);
    assert(m[1].output.len() == 1);
    assert(m[12].output.len() == 3);
    assert(m[1].output != m[12].output);
    assert(m[1].output.len() == 1);
    assert(m[13].output.len() == 2);
    assert(m[1].output != m[13].output);
    assert(m[1].output.len() == 1);
    assert(m[14].output.len() == 3);
    assert(m[1].output != m[14].output);
    assert(m[1].output[0] == "Cargo.toml"@);
    assert(m[15].output[0] == "Makefile"@);
    assert(m[1].output != m[15].output);
    assert(m[2].output[1] == "main.rs"@);
    assert(m[3].output[1] == "lib.rs"@);
    assert(m[2].output != m[3].output);
    assert(m[2].output[1] == "main.rs"@);
    assert(m[4].output[1] == "common"@);
    assert(m[2].output != m[4].output);
    assert(m[2].output.len() == 2);
    assert(m[5].output.len() == 3);
    assert(m[2].output != m[5].output);
    assert(m[2].output.len() == 2);
    assert(m[6].output.len() == 3);
    assert(m[2].output != m[6].output);
    assert(m[2].output.len() == 2);
    assert(m[7].output.len() == 3);
    assert(m[2].output != m[7].output);
    assert(m[2].output[1] == "main.rs"@);
    assert(m[8].output[1] == "routes"@);
    assert(m[2].output != m[8].output);
    assert(m[2].output.len() == 2);
    assert(m[9].output.len() == 3);
    assert(m[2].output != m[9].output);
    assert("main.rs"@[0] != "process"@[0]);
    assert(m[2].output[1] == "main.rs"@);
    assert(m[10].output[1] == "process"@);
    assert(m[2].output != m[10].output);
    assert(m[2].output.len() == 2);
    assert(m[11].output.len() == 3);
    assert(m[2].output != m[11].output);
    assert(m[2].output.len() == 2);
    assert(m[12].output.len() == 3);
    assert(m[2].output != m[12].output);
    assert(m[2].output[1] == "main.rs"@);
    assert(m[13].output[1] == "services"@);
    assert(m[2].output != m[13].output);
    assert(m[2].output.len() == 2);
    assert(m[14].output.len() == 3);
    assert(m[2].output != m[14].output);
    assert(m[2].output.len() == 2);
    assert(m[15].output.len() == 1);
    assert(m[2].output != m[15].output);
    assert("lib.rs"@[0] != "common"@[0]);
    assert(m[3].output[1] == "lib.rs"@);
    assert(m[4].output[1] == "common"@);
    assert(m[3].output != m[4].output);
    assert(m[3].output.len() == 2);
    assert(m[5].output.len() == 3);
    assert(m[3].output != m[5].output);
    assert(m[3].output.len() == 2);
    assert(m[6].output.len() == 3);
    assert(m[3].output != m[6].output);
    assert(m[3].output.len() == 2);
    assert(m[7].output.len() == 3);
    assert(m[3].output != m[7].output);
    assert("lib.rs"@[0] != "routes"@[0]);
    assert(m[3].output[1] == "lib.rs"@);
    assert(m[8].output[1] == "routes"@);
    assert(m[3].output != m[8].output);
    assert(m[3].output.len() == 2);
    assert(m[9].output.len() == 3);
    assert(m[3].output != m[9].output);
    assert(m[3].output[1] == "lib.rs"@);
    assert(m[10].output[1] == "process"@);
    assert(m[3].output != m[10].output);
    assert(m[3].output.len() == 2);
    assert(m[11].output.len() == 3);
    assert(m[3].output != m[11].output);
    assert(m[3].output.len() == 2);
    assert(m[12].output.len() == 3);
    assert(m[3].output != m[12].output);
    assert(m[3].output[1] == "lib.rs"@);
    assert(m[13].output[1] == "services"@);
    assert(m[3].output != m[13].output);
    assert(m[3].output.len() == 2);
    assert(m[14].output.len() == 3);
    assert(m[3].output != m[14].output);
    assert(m[3].output.len() == 2);
    assert(m[15].output.len() == 1);
    assert(m[3].output != m[15].output);
    assert(m[4].output.len() == 2);
    assert(m[5].output.len() == 3);
    assert(m[4].output != m[5].output);
    assert(m[4].output.len() == 2);
    assert(m[6].output.len() == 3);
    assert(m[4].output != m[6].output);
    assert(m[4].output.len() == 2);
    assert(m[7].output.len() == 3);
    assert(m[4].output != m[7].output);
    assert("common"@[0] != "routes"@[0]);
    assert(m[4].output[1] == "common"@);
    assert(m[8].output[1] == "routes"@);
    assert(m[4].output != m[8].output);
    assert(m[4].output.len() == 2);
    assert(m[9].output.len() == 3);
    assert(m[4].output != m[9].output);
    assert(m[4].output[1] == "common"@);
    assert(m[10].output[1] == "process"@);
    assert(m[4].output != m[10].output);
    assert(m[4].output.len() == 2);
    assert(m[11].output.len() == 3);
    assert(m[4].output != m[11].output);
    assert(m[4].output.len() == 2);
    assert(m[12].output.len() == 3);
    assert(m[4].output != m[12].output);
    assert(m[4].output[1] == "common"@);
    assert(m[13].output[1] == "services"@);
    assert(m[4].output != m[13].output);
    assert(m[4].output.len() == 2);
    assert(m[14].output.len() == 3);
    assert(m[4].output != m[14].output);
    assert(m[4].output.len() == 2);
    assert(m[15].output.len() == 1);
    assert(m[4].output != m[15].output);
    assert(m[5].output[2] == "mod.rs"@);
    assert(m[6].output[2] == "types.rs"@);
    assert(m[5].output != m[6].output);
    assert(m[5].output[2] == "mod.rs"@);
    assert(m[7].output[2] == "validation.rs"@);
    assert(m[5].output != m[7].output);
    assert(m[5].output.len() == 3);
    assert(m[8].output.len() == 2);
    assert(m[5].output != m[8].output);
    assert(m[5].output[1] == "common"@);
    assert(m[9].output[1] == "routes"@);
    assert(m[5].output != m[9].output);
    assert(m[5].output.len() == 3);
    assert(m[10].output.len() == 2);
    assert(m[5].output != m[10].output);
    assert(m[5].output[1] == "common"@);
    assert(m[11].output[1] == "process"@);
    assert(m[5].output != m[11].output);
    assert(m[5].output[1] == "common"@);
    assert(m[12].output[1] == "process"@);
    assert(m[5].output != m[12].output);
    assert(m[5].output.len() == 3);
    assert(m[13].output.len() == 2);
    assert(m[5].output != m[13].output);
    assert(m[5].output[1] == "common"@);
    assert(m[14].output[1] == "services"@);
    assert(m[5].output != m[14].output);
    assert(m[5].output.len() == 3);
    assert(m[15].output.len() == 1);
    assert(m[5].output != m[15].output);
    assert(m[6].output[2] == "types.rs"@);
    assert(m[7].output[2] == "validation.rs"@);
    assert(m[6].output != m[7].output);
    assert(m[6].output.len() == 3);
    assert(m[8].output.len() == 2);
    assert(m[6].output != m[8].output);
    assert(m[6].output[1] == "common"@);
    assert(m[9].output[1] == "routes"@);
    assert(m[6].output != m[9].output);
    assert(m[6].output.len() == 3);
    assert(m[10].output.len() == 2);
    assert(m[6].output != m[10].output);
    assert(m[6].output[1] == "common"@);
    assert(m[11].output[1] == "process"@);
    assert(m[6].output != m[11].output);
    assert(m[6].output[1] == "common"@);
    assert(m[12].output[1] == "process"@);
    assert(m[6].output != m[12].output);
    assert(m[6].output.len() == 3);
    assert(m[13].output.len() == 2);
    assert(m[6].output != m[13].output);
    assert(m[6].output[1] == "common"@);
    assert(m[14].output[1] == "services"@);
    assert(m[6].output != m[14].output);
    assert(m[6].output.len() == 3);
    assert(m[15].output.len() == 1);
    assert(m[6].output != m[15].output);
    assert(m[7].output.len() == 3);
    assert(m[8].output.len() == 2);
    assert(m[7].output != m[8].output);
    assert(m[7].output[1] == "common"@);
    assert(m[9].output[1] == "routes"@);
    assert(m[7].output != m[9].output);
    assert(m[7].output.len() == 3);
    assert(m[10].output.len() == 2);
    assert(m[7].output != m[10].output);
    assert(m[7].output[1] == "common"@);
    assert(m[11].output[1] == "process"@);
    assert(m[7].output != m[11].output);
    assert(m[7].output[1] == "common"@);
    assert(m[12].output[1] == "process"@);
    assert(m[7].output != m[12].output);
    assert(m[7].output.len() == 3);
    assert(m[13].output.len() == 2);
    assert(m[7].output != m[13].output);
    assert(m[7].output[1] == "common"@);
    assert(m[14].output[1] == "services"@);
    assert(m[7].output != m[14].output);
    assert(m[7].output.len() == 3);
    assert(m[15].output.len() == 1);
    assert(m[7].output != m[15].output);
    assert(m[8].output.len() == 2);
    assert(m[9].output.len() == 3);
    assert(m[8].output != m[9].output);
    assert(m[8].output[1] == "routes"@);
    assert(m[10].output[1] == "process"@);
    assert(m[8].output != m[10].output);
    assert(m[8].output.len() == 2);
    assert(m[11].output.len() == 3);
    assert(m[8].output != m[11].output);
    assert(m[8].output.len() == 2);
    assert(m[12].output.len() == 3);
    assert(m[8].output != m[12].output);
    assert(m[8].output[1] == "routes"@);
    assert(m[13].output[1] == "services"@);
    assert(m[8].output != m[13].output);
    assert(m[8].output.len() == 2);
    assert(m[14].output.len() == 3);
    assert(m[8].output != m[14].output);
    assert(m[8].output.len() == 2);
    assert(m[15].output.len() == 1);
    assert(m[8].output != m[15].output);
    assert(m[9].output.len() == 3);
    assert(m[10].output.len() == 2);
    assert(m[9].output != m[10].output);
    assert(m[9].output[1] == "routes"@);
    assert(m[11].output[1] == "process"@);
    assert(m[9].output != m[11].output);
    assert(m[9].output[1] == "routes"@);
    assert(m[12].output[1] == "process"@);
    assert(m[9].output != m[12].output);
    assert(m[9].output.len() == 3);
    assert(m[13].output.len() == 2);
    assert(m[9].output != m[13].output);
    assert(m[9].output[1] == "routes"@);
    assert(m[14].output[1] == "services"@);
    assert(m[9].output != m[14].output);
    assert(m[9].output.len() == 3);
    assert(m[15].output.len() == 1);
    assert(m[9].output != m[15].output);
    assert(m[10].output.len() == 2);
    assert(m[11].output.len() == 3);
    assert(m[10].output != m[11].output);
    assert(m[10].output.len() == 2);
    assert(m[12].output.len() == 3);
    assert(m[10].output != m[12].output);
    assert(m[10].output[1] == "process"@);
    assert(m[13].output[1] == "services"@);
    assert(m[10].output != m[13].output);
    assert(m[10].output.len() == 2);
    assert(m[14].output.len() == 3);
    assert(m[10].output != m[14].output);
    assert(m[10].output.len() == 2);
    assert(m[15].output.len() == 1);
    assert(m[10].output != m[15].output);
    assert(m[11].output[2] == "mod.rs"@);
    assert(m[12].output[2] == "processing.rs"@);
    assert(m[11].output != m[12].output);
    assert(m[11].output.len() == 3);
    assert(m[13].output.len() == 2);
    assert(m[11].output != m[13].output);
    assert(m[11].output[1] == "process"@);
    assert(m[14].output[1] == "services"@);
    assert(m[11].output != m[14].output);
    assert(m[11].output.len() == 3);
    assert(m[15].output.len() == 1);
    assert(m[11].output != m[15].output);
    assert(m[12].output.len() == 3);
    assert(m[13].output.len() == 2);
    assert(m[12].output != m[13].output);
    assert(m[12].output[1] == "process"@);
    assert(m[14].output[1] == "services"@);
    assert(m[12].output != m[14].output);
    assert(m[12].output.len() == 3);
    assert(m[15].output.len() == 1);
    assert(m[12].output != m[15].output);
    assert(m[13].output.len() == 2);
    assert(m[14].output.len() == 3);
    assert(m[13].output != m[14].output);
    assert(m[13].output.len() == 2);
    assert(m[15].output.len() == 1);
    assert(m[13].output != m[15].output);
    assert(m[14].output.len() == 3);
    assert(m[15].output.len() == 1);
    assert(m[14].output != m[15].output);
    assert forall|i: int, j: int|
        0 <= i < j < m.len() implies m[i].output != m[j].output by {}
}

fn seg1(a: &str) -> (r: Vec<String>)
    ensures
        r@.map_values(|s: String| s@) == seq![a@],
{
    let mut v: Vec<String> = Vec::new();
    v.push(String::from_str(a));
    proof {
        assert(v@.map_values(|s: String| s@) =~= seq![a@]);
    }
    v
}

fn seg2(a: &str, b: &str) -> (r: Vec<String>)
    ensures
        r@.map_values(|s: String| s@) == seq![a@, b@],
{
    let mut v: Vec<String> = Vec::new();
    v.push(String::from_str(a));
    v.push(String::from_str(b));
    proof {
        assert(v@.map_values(|s: String| s@) =~= seq![a@, b@]);
    }
    v
}

fn seg3(a: &str, b: &str, c: &str) -> (r: Vec<String>)
    ensures
        r@.map_values(|s: String| s@) == seq![a@, b@, c@],
{
    let mut v: Vec<String> = Vec::new();
    v.push(String::from_str(a));
    v.push(String::from_str(b));
    v.push(String::from_str(c));
    proof {
        assert(v@.map_values(|s: String| s@) =~= seq![a@, b@, c@]);
    }
    v
}

fn dir_entry(segs: Vec<String>) -> (r: ManifestEntry)
    ensures
        r@ == (SpecEntry {
            template: Seq::empty(),
            output: segs@.map_values(|s: String| s@),
            substitute: false,
            kind: EntryKind::Directory,
        }),
{
    let e = ManifestEntry {
        template_rel_path: String::new(),
        output_segments: segs,
        substitute: false,
        kind: EntryKind::Directory,
    };
    proof {
        assert(e@ =~= SpecEntry {
            template: Seq::empty(),
            output: e.output_segments@.map_values(|s: String| s@),
            substitute: false,
            kind: EntryKind::Directory,
        });
    }
    e
}

fn file_entry(tpl: &str, segs: Vec<String>, substitute: bool) -> (r: ManifestEntry)
    ensures
        r@ == (SpecEntry {
            template: tpl@,
            output: segs@.map_values(|s: String| s@),
            substitute: substitute,
            kind: EntryKind::File,
        }),
{
    ManifestEntry {
        template_rel_path: String::from_str(tpl),
        output_segments: segs,
        substitute: substitute,
        kind: EntryKind::File,
    }
}

/// The shipped manifest, as executable data.
pub fn all_entries() -> (r: Vec<ManifestEntry>)
    ensures
        r@.map_values(|e: ManifestEntry| e@) == spec_manifest(),
{
    let mut v: Vec<ManifestEntry> = Vec::new();
    v.push(dir_entry(seg1("src")));
    v.push(file_entry("Cargo.toml", seg1("Cargo.toml"), true));
    v.push(file_entry("src/main.rs", seg2("src", "main.rs"), true));
    v.push(file_entry("src/lib.rs", seg2("src", "lib.rs"), false));
    v.push(dir_entry(seg2("src", "common")));
    v.push(file_entry("src/common/mod.rs", seg3("src", "common", "mod.rs"), false));
    v.push(file_entry("src/common/types.rs", seg3("src", "common", "types.rs"), false));
    v.push(file_entry("src/common/validation.rs", seg3("src", "common", "validation.rs"), false));
    v.push(dir_entry(seg2("src", "routes")));
    v.push(file_entry("src/routes/mod.rs", seg3("src", "routes", "mod.rs"), false));
    v.push(dir_entry(seg2("src", "process")));
    v.push(file_entry("src/process/mod.rs", seg3("src", "process", "mod.rs"), false));
    v.push(file_entry("src/process/processing.rs", seg3("src", "process", "processing.rs"), false));
    v.push(dir_entry(seg2("src", "services")));
    v.push(file_entry("src/services/lambda.rs", seg3("src", "services", "lambda.rs"), true));
    v.push(file_entry("Makefile", seg1("Makefile"), true));
    proof {
        assert(v@.map_values(|e: ManifestEntry| e@) =~~= spec_manifest());
    }
    v
}

} // verus!
