use design_patterns::abstract_factory::{
    CheesePizza, ChicagoPizzaIngredientFactory, ChicagoPizzaStore, ClamPizza,
    NyPizzaIngredientFactory, NyPizzaStore, Pizza, PizzaIngredientFactory, PizzaStore,
};
use design_patterns::factory_method;
use design_patterns::factory_method::{Pizza as _, PizzaStore as _};
use design_patterns::singleton::TheSingleton;

#[test]
fn abstract_factory_test_run() {
    let ny_store = NyPizzaStore;
    let chicago_store = ChicagoPizzaStore;

    let (ny, ny_log) = ny_store.order_pizza("cheese");
    let (chicago, chicago_log) = chicago_store.order_pizza("clam");

    assert_eq!(ny.name(), "New York Style Cheese Pizza");
    assert_eq!(
        ny_log,
        vec![
            "Preparing New York Style Cheese Pizza",
            "  kneading Thin Crust Dough",
            "  smearing Marinara Sauce",
            "  spreading Reggiano Cheese",
            "Bake for 25 minutes at 350",
            "Cutting the pizza into diagonal slices",
            "Place pizza in official PizzaStore box",
        ]
    );
    assert_eq!(chicago.name(), "New Chicago Style Clam Pizza");
    assert_eq!(
        chicago_log,
        vec![
            "Preparing New Chicago Style Clam Pizza",
            "  kneading Thick Crust Dough",
            "  smearing Plum Tomato Sauce",
            "  spreading Shredded Mozzarella Cheese",
            "  placing Frozen Clams",
            "Bake for 25 minutes at 350",
            "Cutting the pizza into diagonal slices",
            "Place pizza in official PizzaStore box",
        ]
    );
}

#[test]
fn pizzas_are_named_and_renamed() {
    let mut cheese = CheesePizza::new(NyPizzaIngredientFactory);
    assert_eq!(cheese.name(), "Cheese Pizza");
    cheese.set_name("Margherita".to_string());
    assert_eq!(cheese.prepare()[0], "Preparing Margherita");
    let clam = ClamPizza::new(ChicagoPizzaIngredientFactory);
    assert_eq!(clam.name(), "Clam Pizza");
}

#[test]
fn factories_give_their_region_ingredients() {
    let ny = NyPizzaIngredientFactory;
    let chicago = ChicagoPizzaIngredientFactory;
    assert_eq!(ny.create_veggies(), vec!["Garlic", "Onion", "Mushroom", "RedPepper"]);
    assert_eq!(chicago.create_veggies(), vec!["Spinach", "Black Olives", "Eggplant"]);
    assert_eq!(ny.create_pepperoni(), "Sliced Pepperoni");
    assert_eq!(chicago.create_clam(), "Frozen Clams");
    assert_eq!(ny.create_clam(), "Fresh Clams");
}

#[test]
fn factory_method_test_run() {
    let ny_store = factory_method::NyPizzaStore;
    let chicago_store = factory_method::ChicagoPizzaStore;

    let (ny, ny_log) = ny_store.order_pizza("cheese");
    let (chicago, chicago_log) = chicago_store.order_pizza("cheese");

    assert_eq!(ny.name(), "NY Style Sauce and Cheese Pizza");
    assert_eq!(
        ny_log,
        vec![
            "Preparing NY Style Sauce and Cheese Pizza",
            "Tossing dough...",
            "Adding sauce...",
            "Adding toppings:",
            "    Grated Reggiano Cheese",
            "Bake for 25 minutes at 350",
            "Cutting the pizza into diagonal slices",
            "Place pizza in official PizzaStore box",
        ]
    );
    assert_eq!(chicago.dough(), "Extra Thick Crust Dough");
    assert_eq!(chicago_log[0], "Preparing Chicago Style Deep Dish Cheese Pizza");
    assert_eq!(chicago_log[4], "    Shredded Mozarella Cheese");
    assert_eq!(chicago_log.len(), 8);
}

#[test]
fn singleton_constructor_makes_an_instance() {
    let _instance = TheSingleton::new();
}
