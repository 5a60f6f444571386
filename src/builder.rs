use vstd::prelude::*;

verus! {

/// Collects the properties of a pizza, one setter at a time, and builds any
/// number of pizzas from them.
pub struct PizzaBuilder {
    pub size: u8,
    pub flavour: String,
    pub topping: String,
    pub price: u8,
}

/// A pizza, made by a `PizzaBuilder`.
#[derive(Debug)]
pub struct Pizza {
    pub size: u8,
    pub flavour: String,
    pub topping: String,
    pub price: u8,
}

impl Default for PizzaBuilder {
    /// A builder with size and price zero, and empty flavour and topping.
    fn default() -> (r: PizzaBuilder)
        ensures
            r.size == 0,
            r.flavour@ == Seq::<char>::empty(),
            r.topping@ == Seq::<char>::empty(),
            r.price == 0,
    {
        PizzaBuilder { size: 0, flavour: String::new(), topping: String::new(), price: 0 }
    }
}

impl Pizza {
    /// The builder that pizzas are made with, with every property at its default.
    pub fn builder() -> (r: PizzaBuilder)
        ensures
            r.size == 0,
            r.flavour@ == Seq::<char>::empty(),
            r.topping@ == Seq::<char>::empty(),
            r.price == 0,
    {
        PizzaBuilder::default()
    }
}

impl PizzaBuilder {
    /// Sets the size; the other properties stay.
    pub fn size(self, size: u8) -> (r: PizzaBuilder)
        ensures
            r.size == size,
            r.flavour@ == self.flavour@,
            r.topping@ == self.topping@,
            r.price == self.price,
    {
        let mut builder = self;
        builder.size = size;
        builder
    }

    /// Sets the flavour; the other properties stay.
    pub fn flavour(self, flavour: String) -> (r: PizzaBuilder)
        ensures
            r.size == self.size,
            r.flavour@ == flavour@,
            r.topping@ == self.topping@,
            r.price == self.price,
    {
        let mut builder = self;
        builder.flavour = flavour;
        builder
    }

    /// Sets the topping; the other properties stay.
    pub fn topping(self, topping: String) -> (r: PizzaBuilder)
        ensures
            r.size == self.size,
            r.flavour@ == self.flavour@,
            r.topping@ == topping@,
            r.price == self.price,
    {
        let mut builder = self;
        builder.topping = topping;
        builder
    }

    /// Sets the price; the other properties stay.
    pub fn price(self, price: u8) -> (r: PizzaBuilder)
        ensures
            r.size == self.size,
            r.flavour@ == self.flavour@,
            r.topping@ == self.topping@,
            r.price == price,
    {
        let mut builder = self;
        builder.price = price;
        builder
    }

    /// A pizza with the properties set so far; the builder stays as it is.
    pub fn build(&self) -> (r: Pizza)
        ensures
            r.size == self.size,
            r.flavour@ == self.flavour@,
            r.topping@ == self.topping@,
            r.price == self.price,
    {
        Pizza {
            size: self.size,
            flavour: self.flavour.clone(),
            topping: self.topping.clone(),
            price: self.price,
        }
    }
}

} // verus!
