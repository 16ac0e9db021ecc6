use sprite_ecs::builder::{Buildable, CarBuilder};

#[test]
fn builder_builds_complete_car() {
    let car = CarBuilder::new().make("Toyota").model("Camry").year(2023).build().unwrap();
    assert_eq!(car.make, "Toyota");
    assert_eq!(car.model, "Camry");
    assert_eq!(car.year, 2023);
}

#[test]
fn builder_names_first_missing_part() {
    assert_eq!(CarBuilder::new().build().unwrap_err(), "Make is required");
    assert_eq!(CarBuilder::new().make("Honda").build().unwrap_err(), "Model is required");
    assert_eq!(
        CarBuilder::new().make("Honda").model("Civic").build().unwrap_err(),
        "Year is required"
    );
    assert_eq!(CarBuilder::new().year(1999).model("Civic").build().unwrap_err(), "Make is required");
}

#[test]
fn builder_replaces_and_resets() {
    let mut builder = CarBuilder::new().make("A").make("B").year(1).year(2);
    assert_eq!(builder.make.as_deref(), Some("B"));
    assert_eq!(builder.year, Some(2));
    assert_eq!(builder.model, None);
    builder.reset();
    assert_eq!(builder.make, None);
    assert_eq!(builder.model, None);
    assert_eq!(builder.year, None);
}
