use fiscal_core::response::{freshness_summary, response_content};

#[test]
fn markdown_of_an_answer() {
    assert_eq!(
        response_content("TVA", "TVA nette : **0 €**.", "2026.08.01", "2026-08-01"),
        "## TVA\n\nTVA nette : **0 €**.\n\n_Données fiscales : 2026.08.01 — audit du 2026-08-01._"
    );
}

#[test]
fn freshness_summaries() {
    assert_eq!(
        freshness_summary("2026-08-01", "2026.08.01", false),
        "Dernier audit réel : **2026-08-01** ; registre 2026.08.01 ; statut : **à jour**."
    );
    assert_eq!(
        freshness_summary("2026-08-01", "v", true),
        "Dernier audit réel : **2026-08-01** ; registre v ; statut : **périmé ou hors année**."
    );
}
