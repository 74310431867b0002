use design_patterns::strategy::{Duck, Quack, Squeak};

#[test]
fn duck_concert() {
    let mut ancona = Duck::new("Ancona Duck", Quack);
    let mut rubber = Duck::new("Rubber Duck", Squeak);

    for _ in 0..2 {
        assert_eq!(ancona.quack(), "quack");
        assert_eq!(rubber.quack(), "squeak");
    }
    assert_eq!(ancona.kind(), "Ancona Duck");
    assert_eq!(rubber.kind(), "Rubber Duck");
}
