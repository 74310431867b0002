//! Abstract factory pattern: a pizza is made from the ingredients of a
//! regional ingredient factory, and a store picks the factory.
//!
//! What a pizza does while it is made is returned as the lines to print.

use vstd::prelude::*;
use crate::text::{joined, lines};

verus! {

/// Makes the ingredients of one region.
pub trait PizzaIngredientFactory {
    spec fn dough(&self) -> Seq<char>;

    spec fn sauce(&self) -> Seq<char>;

    spec fn veggies(&self) -> Seq<Seq<char>>;

    spec fn cheese(&self) -> Seq<char>;

    spec fn pepperoni(&self) -> Seq<char>;

    spec fn clam(&self) -> Seq<char>;

    fn create_dough(&self) -> (r: &'static str)
        ensures
            r@ == self.dough(),
    ;

    fn create_sauce(&self) -> (r: &'static str)
        ensures
            r@ == self.sauce(),
    ;

    fn create_veggies(&self) -> (r: Vec<&'static str>)
        ensures
            r@.map_values(|v: &'static str| v@) == self.veggies(),
    ;

    fn create_cheese(&self) -> (r: &'static str)
        ensures
            r@ == self.cheese(),
    ;

    fn create_pepperoni(&self) -> (r: &'static str)
        ensures
            r@ == self.pepperoni(),
    ;

    fn create_clam(&self) -> (r: &'static str)
        ensures
            r@ == self.clam(),
    ;
}

/// The ingredients of New York.
pub struct NyPizzaIngredientFactory;

impl PizzaIngredientFactory for NyPizzaIngredientFactory {
    open spec fn dough(&self) -> Seq<char> {
        "Thin Crust Dough"@
    }

    open spec fn sauce(&self) -> Seq<char> {
        "Marinara Sauce"@
    }

    open spec fn veggies(&self) -> Seq<Seq<char>> {
        seq!["Garlic"@, "Onion"@, "Mushroom"@, "RedPepper"@]
    }

    open spec fn cheese(&self) -> Seq<char> {
        "Reggiano Cheese"@
    }

    open spec fn pepperoni(&self) -> Seq<char> {
        "Sliced Pepperoni"@
    }

    open spec fn clam(&self) -> Seq<char> {
        "Fresh Clams"@
    }

    fn create_dough(&self) -> (r: &'static str) {
        "Thin Crust Dough"
    }

    fn create_sauce(&self) -> (r: &'static str) {
        "Marinara Sauce"
    }

    fn create_veggies(&self) -> (r: Vec<&'static str>) {
        let r = vec!["Garlic", "Onion", "Mushroom", "RedPepper"];
        assert(r@.map_values(|v: &'static str| v@) =~= self.veggies());
        r
    }

    fn create_cheese(&self) -> (r: &'static str) {
        "Reggiano Cheese"
    }

    fn create_pepperoni(&self) -> (r: &'static str) {
        "Sliced Pepperoni"
    }

    fn create_clam(&self) -> (r: &'static str) {
        "Fresh Clams"
    }
}

/// The ingredients of Chicago.
pub struct ChicagoPizzaIngredientFactory;

impl PizzaIngredientFactory for ChicagoPizzaIngredientFactory {
    open spec fn dough(&self) -> Seq<char> {
        "Thick Crust Dough"@
    }

    open spec fn sauce(&self) -> Seq<char> {
        "Plum Tomato Sauce"@
    }

    open spec fn veggies(&self) -> Seq<Seq<char>> {
        seq!["Spinach"@, "Black Olives"@, "Eggplant"@]
    }

    open spec fn cheese(&self) -> Seq<char> {
        "Shredded Mozzarella Cheese"@
    }

    open spec fn pepperoni(&self) -> Seq<char> {
        "Sliced Pepperoni"@
    }

    open spec fn clam(&self) -> Seq<char> {
        "Frozen Clams"@
    }

    fn create_dough(&self) -> (r: &'static str) {
        "Thick Crust Dough"
    }

    fn create_sauce(&self) -> (r: &'static str) {
        "Plum Tomato Sauce"
    }

    fn create_veggies(&self) -> (r: Vec<&'static str>) {
        let r = vec!["Spinach", "Black Olives", "Eggplant"];
        assert(r@.map_values(|v: &'static str| v@) =~= self.veggies());
        r
    }

    fn create_cheese(&self) -> (r: &'static str) {
        "Shredded Mozzarella Cheese"
    }

    fn create_pepperoni(&self) -> (r: &'static str) {
        "Sliced Pepperoni"
    }

    fn create_clam(&self) -> (r: &'static str) {
        "Frozen Clams"
    }
}

/// A pizza that can be named, prepared, baked, cut and boxed.
pub trait Pizza {
    /// The pizza's name.
    spec fn title(&self) -> Seq<char>;

    /// The lines that preparing prints after naming the pizza.
    spec fn preparation(&self) -> Seq<Seq<char>>;

    fn set_name(&mut self, name: String)
        ensures
            final(self).title() == name@,
            final(self).preparation() == old(self).preparation(),
    ;

    fn name(&self) -> (r: &str)
        ensures
            r@ == self.title(),
    ;

    /// Prepares the pizza; returns the lines to print.
    fn prepare(&mut self) -> (r: Vec<String>)
        ensures
            lines(r@) == seq!["Preparing "@ + old(self).title()] + old(self).preparation(),
            final(self).title() == old(self).title(),
            final(self).preparation() == old(self).preparation(),
    ;

    fn bake(&mut self) -> (r: &'static str)
        ensures
            r@ == "Bake for 25 minutes at 350"@,
            final(self).title() == old(self).title(),
            final(self).preparation() == old(self).preparation(),
    {
        "Bake for 25 minutes at 350"
    }

    fn cut(&mut self) -> (r: &'static str)
        ensures
            r@ == "Cutting the pizza into diagonal slices"@,
            final(self).title() == old(self).title(),
            final(self).preparation() == old(self).preparation(),
    {
        "Cutting the pizza into diagonal slices"
    }

    fn boxify(&mut self) -> (r: &'static str)
        ensures
            r@ == "Place pizza in official PizzaStore box"@,
            final(self).title() == old(self).title(),
            final(self).preparation() == old(self).preparation(),
    {
        "Place pizza in official PizzaStore box"
    }
}

/// What preparing a cheese pizza prints after naming it.
pub open spec fn cheese_preparation<F: PizzaIngredientFactory>(f: F) -> Seq<Seq<char>> {
    seq!["  kneading "@ + f.dough(), "  smearing "@ + f.sauce(), "  spreading "@ + f.cheese()]
}

/// What preparing a clam pizza prints after naming it.
pub open spec fn clam_preparation<F: PizzaIngredientFactory>(f: F) -> Seq<Seq<char>> {
    cheese_preparation(f).push("  placing "@ + f.clam())
}

/// Dough, sauce and cheese from `F`.
pub struct CheesePizza<F: PizzaIngredientFactory> {
    pub name: String,
    pub ingredient_factory: F,
}

impl<F: PizzaIngredientFactory> CheesePizza<F> {
    pub fn new(ingredient_factory: F) -> (r: CheesePizza<F>)
        ensures
            r.name@ == "Cheese Pizza"@,
            r.ingredient_factory == ingredient_factory,
    {
        CheesePizza { name: "Cheese Pizza".to_owned(), ingredient_factory }
    }
}

impl<F: PizzaIngredientFactory> Pizza for CheesePizza<F> {
    open spec fn title(&self) -> Seq<char> {
        self.name@
    }

    open spec fn preparation(&self) -> Seq<Seq<char>> {
        cheese_preparation(self.ingredient_factory)
    }

    fn set_name(&mut self, name: String) {
        self.name = name;
    }

    fn name(&self) -> (r: &str) {
        self.name.as_str()
    }

    fn prepare(&mut self) -> (r: Vec<String>) {
        let mut r: Vec<String> = Vec::new();
        r.push(joined("Preparing ", self.name.as_str()));
        r.push(joined("  kneading ", self.ingredient_factory.create_dough()));
        r.push(joined("  smearing ", self.ingredient_factory.create_sauce()));
        r.push(joined("  spreading ", self.ingredient_factory.create_cheese()));
        assert(lines(r@) =~= seq!["Preparing "@ + self.title()] + self.preparation());
        r
    }
}

/// Dough, sauce, cheese and clams from `F`.
pub struct ClamPizza<F: PizzaIngredientFactory> {
    pub name: String,
    pub ingredient_factory: F,
}

impl<F: PizzaIngredientFactory> ClamPizza<F> {
    pub fn new(ingredient_factory: F) -> (r: ClamPizza<F>)
        ensures
            r.name@ == "Clam Pizza"@,
            r.ingredient_factory == ingredient_factory,
    {
        ClamPizza { name: "Clam Pizza".to_owned(), ingredient_factory }
    }
}

impl<F: PizzaIngredientFactory> Pizza for ClamPizza<F> {
    open spec fn title(&self) -> Seq<char> {
        self.name@
    }

    open spec fn preparation(&self) -> Seq<Seq<char>> {
        clam_preparation(self.ingredient_factory)
    }

    fn set_name(&mut self, name: String) {
        self.name = name;
    }

    fn name(&self) -> (r: &str) {
        self.name.as_str()
    }

    fn prepare(&mut self) -> (r: Vec<String>) {
        let mut r: Vec<String> = Vec::new();
        r.push(joined("Preparing ", self.name.as_str()));
        r.push(joined("  kneading ", self.ingredient_factory.create_dough()));
        r.push(joined("  smearing ", self.ingredient_factory.create_sauce()));
        r.push(joined("  spreading ", self.ingredient_factory.create_cheese()));
        r.push(joined("  placing ", self.ingredient_factory.create_clam()));
        assert(lines(r@) =~= seq!["Preparing "@ + self.title()] + self.preparation());
        r
    }
}

/// The pizza types a store knows how to make.
pub open spec fn known_pizza(pizza_type: Seq<char>) -> bool {
    pizza_type == "cheese"@ || pizza_type == "clam"@
}

/// A pizza as a store makes it.
pub enum StorePizza<F: PizzaIngredientFactory> {
    Cheese(CheesePizza<F>),
    Clam(ClamPizza<F>),
}

/// `p` is the pizza of type `pizza_type` from ingredients of `f`, named with
/// the store's `style` in front.
pub open spec fn made<F: PizzaIngredientFactory>(
    p: StorePizza<F>,
    style: Seq<char>,
    f: F,
    pizza_type: Seq<char>,
) -> bool {
    ||| pizza_type == "cheese"@ && p.title() == style + "Cheese Pizza"@ && p.preparation()
        == cheese_preparation(f)
    ||| pizza_type == "clam"@ && p.title() == style + "Clam Pizza"@ && p.preparation()
        == clam_preparation(f)
}

impl<F: PizzaIngredientFactory> Pizza for StorePizza<F> {
    open spec fn title(&self) -> Seq<char> {
        match self {
            StorePizza::Cheese(p) => p.title(),
            StorePizza::Clam(p) => p.title(),
        }
    }

    open spec fn preparation(&self) -> Seq<Seq<char>> {
        match self {
            StorePizza::Cheese(p) => p.preparation(),
            StorePizza::Clam(p) => p.preparation(),
        }
    }

    fn set_name(&mut self, name: String) {
        match self {
            StorePizza::Cheese(p) => p.set_name(name),
            StorePizza::Clam(p) => p.set_name(name),
        }
    }

    fn name(&self) -> (r: &str) {
        match self {
            StorePizza::Cheese(p) => p.name(),
            StorePizza::Clam(p) => p.name(),
        }
    }

    fn prepare(&mut self) -> (r: Vec<String>) {
        match self {
            StorePizza::Cheese(p) => p.prepare(),
            StorePizza::Clam(p) => p.prepare(),
        }
    }
}

/// What a store prints while it makes a pizza `p`.
pub open spec fn order_lines<P: Pizza>(p: P) -> Seq<Seq<char>> {
    seq!["Preparing "@ + p.title()] + p.preparation() + seq![
        "Bake for 25 minutes at 350"@,
        "Cutting the pizza into diagonal slices"@,
        "Place pizza in official PizzaStore box"@,
    ]
}

/// A store that makes pizzas in its regional style.
pub trait PizzaStore {
    type Factory: PizzaIngredientFactory;

    /// What the store puts in front of a pizza's name.
    spec fn style(&self) -> Seq<char>;

    /// The factory the store takes its ingredients from.
    spec fn factory(&self) -> Self::Factory;

    fn create_pizza(&self, pizza_type: &str) -> (r: StorePizza<Self::Factory>)
        requires
            known_pizza(pizza_type@),
        ensures
            made(r, self.style(), self.factory(), pizza_type@),
    ;

    /// Makes, prepares, bakes, cuts and boxes a pizza; returns it with the
    /// lines to print.
    fn order_pizza(&self, pizza_type: &str) -> (r: (StorePizza<Self::Factory>, Vec<String>))
        requires
            known_pizza(pizza_type@),
        ensures
            made(r.0, self.style(), self.factory(), pizza_type@),
            lines(r.1@) == order_lines(r.0),
    {
        let mut pizza = self.create_pizza(pizza_type);
        let mut log = pizza.prepare();
        log.push(pizza.bake().to_owned());
        log.push(pizza.cut().to_owned());
        log.push(pizza.boxify().to_owned());
        assert(lines(log@) =~= order_lines(pizza));
        (pizza, log)
    }
}

/// Makes New York style pizzas.
pub struct NyPizzaStore;

impl PizzaStore for NyPizzaStore {
    type Factory = NyPizzaIngredientFactory;

    open spec fn style(&self) -> Seq<char> {
        "New York Style "@
    }

    open spec fn factory(&self) -> NyPizzaIngredientFactory {
        NyPizzaIngredientFactory
    }

    fn create_pizza(&self, pizza_type: &str) -> (r: StorePizza<NyPizzaIngredientFactory>) {
        let ingredient_factory = NyPizzaIngredientFactory;
        if pizza_type.to_owned() == "cheese".to_owned() {
            let mut pizza = CheesePizza::new(ingredient_factory);
            let name = joined("New York Style ", pizza.name());
            pizza.set_name(name);
            StorePizza::Cheese(pizza)
        } else {
            let mut pizza = ClamPizza::new(ingredient_factory);
            let name = joined("New York Style ", pizza.name());
            pizza.set_name(name);
            StorePizza::Clam(pizza)
        }
    }
}

/// Makes Chicago style pizzas.
pub struct ChicagoPizzaStore;

impl PizzaStore for ChicagoPizzaStore {
    type Factory = ChicagoPizzaIngredientFactory;

    open spec fn style(&self) -> Seq<char> {
        "New Chicago Style "@
    }

    open spec fn factory(&self) -> ChicagoPizzaIngredientFactory {
        ChicagoPizzaIngredientFactory
    }

    fn create_pizza(&self, pizza_type: &str) -> (r: StorePizza<ChicagoPizzaIngredientFactory>) {
        let ingredient_factory = ChicagoPizzaIngredientFactory;
        if pizza_type.to_owned() == "cheese".to_owned() {
            let mut pizza = CheesePizza::new(ingredient_factory);
            let name = joined("New Chicago Style ", pizza.name());
            pizza.set_name(name);
            StorePizza::Cheese(pizza)
        } else {
            let mut pizza = ClamPizza::new(ingredient_factory);
            let name = joined("New Chicago Style ", pizza.name());
            pizza.set_name(name);
            StorePizza::Clam(pizza)
        }
    }
}

} // verus!
