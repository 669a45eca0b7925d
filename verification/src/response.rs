//! The Markdown text of a tool's answer.

use vstd::prelude::*;
use vstd::string::StringExecFns;

verus! {

/// The Markdown of an answer titled `title` that sums up as `summary`, under
/// the registry version `version` audited on `audited_at`.
pub open spec fn response_text(
    title: Seq<char>,
    summary: Seq<char>,
    version: Seq<char>,
    audited_at: Seq<char>,
) -> Seq<char> {
    "## "@ + title + "\n\n"@ + summary + "\n\n_Données fiscales : "@ + version + " — audit du "@
        + audited_at + "._"@
}

/// The Markdown of an answer.
pub fn response_content(title: &str, summary: &str, version: &str, audited_at: &str) -> (c: String)
    ensures
        c@ == response_text(title@, summary@, version@, audited_at@),
{
    let c = String::from_str("## ").concat(title);
    let c = c.concat("\n\n");
    let c = c.concat(summary);
    let c = c.concat("\n\n_Données fiscales : ");
    let c = c.concat(version);
    let c = c.concat(" — audit du ");
    let c = c.concat(audited_at);
    c.concat("._")
}

/// The summary of a freshness assessment.
pub open spec fn freshness_text(audited_at: Seq<char>, version: Seq<char>, stale: bool) -> Seq<
    char,
> {
    "Dernier audit réel : **"@ + audited_at + "** ; registre "@ + version + " ; statut : **"@ + (
    if stale {
        "périmé ou hors année"@
    } else {
        "à jour"@
    }) + "**."@
}

/// The summary of a freshness assessment.
pub fn freshness_summary(audited_at: &str, version: &str, stale: bool) -> (s: String)
    ensures
        s@ == freshness_text(audited_at@, version@, stale),
{
    let s = String::from_str("Dernier audit réel : **").concat(audited_at);
    let s = s.concat("** ; registre ");
    let s = s.concat(version);
    let s = s.concat(" ; statut : **");
    let s = s.concat(
        if stale {
            "périmé ou hors année"
        } else {
            "à jour"
        },
    );
    s.concat("**.")
}

/// An answer's Markdown opens with a level-two heading of its title, then its
/// summary as a paragraph, then a paragraph naming the registry version and
/// its audit date; a freshness summary names the audit date and version and
/// says "à jour" exactly when the data is fresh.
pub proof fn lemma_answer_layout(
    title: Seq<char>,
    summary: Seq<char>,
    version: Seq<char>,
    audited_at: Seq<char>,
    stale: bool,
)
    ensures
        response_text(title, summary, version, audited_at) == "## "@ + title + "\n\n"@ + summary
            + "\n\n_Données fiscales : "@ + version + " — audit du "@ + audited_at + "._"@,
        freshness_text(audited_at, version, stale) == "Dernier audit réel : **"@ + audited_at
            + "** ; registre "@ + version + " ; statut : **"@ + (if stale {
            "périmé ou hors année"@
        } else {
            "à jour"@
        }) + "**."@,
{
}

} // verus!
