use fiscal_core::error::{invalid, FiscalError};

#[test]
fn messages() {
    assert_eq!(
        invalid("montant", "valeur requise").message(),
        "argument invalide `montant` : valeur requise"
    );
    assert_eq!(FiscalError::UnknownTool("x".to_owned()).message(), "outil inconnu : x");
    assert!(matches!(invalid("a", "b"), FiscalError::InvalidArgument { .. }));
}
