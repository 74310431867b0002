//! Factory method pattern: each store decides which concrete pizza its
//! factory method makes; ordering a pizza is the same for every store.
//!
//! What a pizza does while it is made is returned as the lines to print.

use vstd::prelude::*;
use crate::text::{joined, lines};

verus! {

/// What preparing a pizza named `title` with `toppings` prints.
pub open spec fn prepare_lines(title: Seq<char>, toppings: Seq<Seq<char>>) -> Seq<Seq<char>> {
    seq!["Preparing "@ + title, "Tossing dough..."@, "Adding sauce..."@, "Adding toppings:"@]
        + toppings.map_values(|t: Seq<char>| "    "@ + t)
}

/// What a store prints while it makes `p`.
pub open spec fn order_lines<P: Pizza>(p: P) -> Seq<Seq<char>> {
    prepare_lines(p.title(), p.topping_names()) + seq![
        "Bake for 25 minutes at 350"@,
        "Cutting the pizza into diagonal slices"@,
        "Place pizza in official PizzaStore box"@,
    ]
}

/// A pizza with fixed ingredients.
pub trait Pizza: Sized {
    spec fn title(&self) -> Seq<char>;

    spec fn dough_name(&self) -> Seq<char>;

    spec fn sauce_name(&self) -> Seq<char>;

    spec fn topping_names(&self) -> Seq<Seq<char>>;

    fn name(&self) -> (r: &'static str)
        ensures
            r@ == self.title(),
    ;

    fn dough(&self) -> (r: &'static str)
        ensures
            r@ == self.dough_name(),
    ;

    fn sauce(&self) -> (r: &'static str)
        ensures
            r@ == self.sauce_name(),
    ;

    fn toppings(&self) -> (r: Vec<&'static str>)
        ensures
            r@.map_values(|t: &'static str| t@) == self.topping_names(),
    ;

    /// Prepares the pizza; returns the lines to print.
    fn prepare(&mut self) -> (r: Vec<String>)
        ensures
            lines(r@) == prepare_lines(old(self).title(), old(self).topping_names()),
            *final(self) == *old(self),
    {
        let mut r: Vec<String> = Vec::new();
        r.push(joined("Preparing ", self.name()));
        r.push("Tossing dough...".to_owned());
        r.push("Adding sauce...".to_owned());
        r.push("Adding toppings:".to_owned());
        let toppings = self.toppings();
        let ghost head = lines(r@);
        let ghost names = self.topping_names();
        let mut k: usize = 0;
        while k < toppings.len()
            invariant
                0 <= k <= toppings.len(),
                toppings@.map_values(|t: &'static str| t@) == names,
                lines(r@) == head + names.subrange(0, k as int).map_values(
                    |t: Seq<char>| "    "@ + t,
                ),
            decreases toppings.len() - k,
        {
            let ghost before = r@;
            let line = joined("    ", toppings[k]);
            r.push(line);
            proof {
                assert(names[k as int] == toppings@[k as int]@);
                assert(lines(r@) =~= lines(before).push(line@));
                assert(names.subrange(0, k + 1).map_values(|t: Seq<char>| "    "@ + t)
                    =~= names.subrange(0, k as int).map_values(|t: Seq<char>| "    "@ + t).push(
                    "    "@ + names[k as int],
                ));
                assert(lines(r@) =~= head + names.subrange(0, k + 1).map_values(
                    |t: Seq<char>| "    "@ + t,
                ));
            }
            k += 1;
        }
        proof {
            assert(names.subrange(0, k as int) =~= names);
            assert(lines(r@) =~= prepare_lines(self.title(), self.topping_names()));
        }
        r
    }

    fn bake(&mut self) -> (r: &'static str)
        ensures
            r@ == "Bake for 25 minutes at 350"@,
            *final(self) == *old(self),
    {
        "Bake for 25 minutes at 350"
    }

    fn cut(&mut self) -> (r: &'static str)
        ensures
            r@ == "Cutting the pizza into diagonal slices"@,
            *final(self) == *old(self),
    {
        "Cutting the pizza into diagonal slices"
    }

    fn boxify(&mut self) -> (r: &'static str)
        ensures
            r@ == "Place pizza in official PizzaStore box"@,
            *final(self) == *old(self),
    {
        "Place pizza in official PizzaStore box"
    }
}

/// A store whose factory method makes its own kind of pizza.
pub trait PizzaStore {
    type Product: Pizza;

    /// The pizza the store makes.
    spec fn product(&self) -> Self::Product;

    fn create_pizza(&self, pizza_type: &str) -> (r: Self::Product)
        requires
            pizza_type@ == "cheese"@,
        ensures
            r == self.product(),
    ;

    /// Makes, prepares, bakes, cuts and boxes a pizza; returns it with the
    /// lines to print.
    fn order_pizza(&self, pizza_type: &str) -> (r: (Self::Product, Vec<String>))
        requires
            pizza_type@ == "cheese"@,
        ensures
            r.0 == self.product(),
            lines(r.1@) == order_lines(self.product()),
    {
        let mut pizza = self.create_pizza(pizza_type);
        let mut log = pizza.prepare();
        log.push(pizza.bake().to_owned());
        log.push(pizza.cut().to_owned());
        log.push(pizza.boxify().to_owned());
        assert(lines(log@) =~= order_lines(pizza));
        (pizza, log)
    }
}

/// Makes New York style cheese pizzas.
pub struct NyPizzaStore;

impl PizzaStore for NyPizzaStore {
    type Product = NyStyleCheesePizza;

    open spec fn product(&self) -> NyStyleCheesePizza {
        NyStyleCheesePizza
    }

    fn create_pizza(&self, pizza_type: &str) -> (r: NyStyleCheesePizza) {
        NyStyleCheesePizza::new()
    }
}

/// Makes Chicago style cheese pizzas.
pub struct ChicagoPizzaStore;

impl PizzaStore for ChicagoPizzaStore {
    type Product = ChicagoStyleCheesePizza;

    open spec fn product(&self) -> ChicagoStyleCheesePizza {
        ChicagoStyleCheesePizza
    }

    fn create_pizza(&self, pizza_type: &str) -> (r: ChicagoStyleCheesePizza) {
        ChicagoStyleCheesePizza::new()
    }
}

/// Thin crust, marinara and reggiano.
pub struct NyStyleCheesePizza;

impl NyStyleCheesePizza {
    pub fn new() -> (r: NyStyleCheesePizza)
        ensures
            r == NyStyleCheesePizza,
    {
        NyStyleCheesePizza
    }
}

impl Pizza for NyStyleCheesePizza {
    open spec fn title(&self) -> Seq<char> {
        "NY Style Sauce and Cheese Pizza"@
    }

    open spec fn dough_name(&self) -> Seq<char> {
        "Thin Crust Dough"@
    }

    open spec fn sauce_name(&self) -> Seq<char> {
        "Marinara Sauce"@
    }

    open spec fn topping_names(&self) -> Seq<Seq<char>> {
        seq!["Grated Reggiano Cheese"@]
    }

    fn name(&self) -> (r: &'static str) {
        "NY Style Sauce and Cheese Pizza"
    }

    fn dough(&self) -> (r: &'static str) {
        "Thin Crust Dough"
    }

    fn sauce(&self) -> (r: &'static str) {
        "Marinara Sauce"
    }

    fn toppings(&self) -> (r: Vec<&'static str>) {
        let r = vec!["Grated Reggiano Cheese"];
        assert(r@.map_values(|t: &'static str| t@) =~= self.topping_names());
        r
    }
}

/// Extra thick crust, plum tomato and mozzarella.
pub struct ChicagoStyleCheesePizza;

impl ChicagoStyleCheesePizza {
    pub fn new() -> (r: ChicagoStyleCheesePizza)
        ensures
            r == ChicagoStyleCheesePizza,
    {
        ChicagoStyleCheesePizza
    }
}

impl Pizza for ChicagoStyleCheesePizza {
    open spec fn title(&self) -> Seq<char> {
        "Chicago Style Deep Dish Cheese Pizza"@
    }

    open spec fn dough_name(&self) -> Seq<char> {
        "Extra Thick Crust Dough"@
    }

    open spec fn sauce_name(&self) -> Seq<char> {
        "Plum Tomato Sauce"@
    }

    open spec fn topping_names(&self) -> Seq<Seq<char>> {
        seq!["Shredded Mozarella Cheese"@]
    }

    fn name(&self) -> (r: &'static str) {
        "Chicago Style Deep Dish Cheese Pizza"
    }

    fn dough(&self) -> (r: &'static str) {
        "Extra Thick Crust Dough"
    }

    fn sauce(&self) -> (r: &'static str) {
        "Plum Tomato Sauce"
    }

    fn toppings(&self) -> (r: Vec<&'static str>) {
        let r = vec!["Shredded Mozarella Cheese"];
        assert(r@.map_values(|t: &'static str| t@) =~= self.topping_names());
        r
    }
}

} // verus!
