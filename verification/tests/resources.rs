use csp::resources::Expert;
use csp::resources::Food;
use csp::resources::Money;
use csp::resources::Ores;
use csp::resources::RefinedProduct;
use csp::resources::ScientificResearch;
use csp::resources::WorkForce;

#[test]
fn food() {
    let mut food = Food::default();
    food.add(10);
    assert_eq!(food.get(), 10);

    let mut r: bool;

    r = food.remove(5);
    assert_eq!(food.get(), 5);
    assert!(r);
    r = food.remove(10);
    assert_eq!(food.get(), 5);
    assert!(!r);
}

#[test]
fn money() {
    let mut money = Money::default();
    money.add(10);
    assert_eq!(money.get(), 10);
    money.remove(5);
    assert_eq!(money.get(), 5);
    money.remove(10);
    assert_eq!(money.get(), -5);
    assert!(money.is_negative());
}

#[test]
fn work_force() {
    let mut work_force = WorkForce::default();
    work_force.add(10);
    assert_eq!(work_force.get(), 10);

    let mut r: bool;

    r = work_force.remove(5);
    assert_eq!(work_force.get(), 5);
    assert!(r);
    r = work_force.remove(10);
    assert_eq!(work_force.get(), 5);
    assert!(!r);
}

#[test]
fn ores() {
    let mut ores = Ores::default();
    ores.add_uranium(10);
    assert_eq!(ores.get_uranium(), 10);
    ores.add_rate_metals(20);
    assert_eq!(ores.get_rate_metals(), 20);

    let mut r: bool;

    r = ores.remove_uranium(5);
    assert_eq!(ores.get_uranium(), 5);
    assert!(r);
    r = ores.remove_uranium(10);
    assert_eq!(ores.get_uranium(), 5);
    assert!(!r);

    r = ores.remove_rate_metals(5);
    assert_eq!(ores.get_rate_metals(), 15);
    assert!(r);

    r = ores.remove_rate_metals(20);
    assert_eq!(ores.get_rate_metals(), 15);
    assert!(!r);
}

#[test]
fn refined_product() {
    let mut refined_product = RefinedProduct::default();
    refined_product.add_alloys(10);
    assert_eq!(refined_product.get_alloys(), 10);
    refined_product.add_chips(20);
    assert_eq!(refined_product.get_chips(), 20);
    refined_product.add_components(30);
    assert_eq!(refined_product.get_components(), 30);

    let mut r: bool;

    r = refined_product.remove_alloys(5);
    assert_eq!(refined_product.get_alloys(), 5);
    assert!(r);

    r = refined_product.remove_alloys(10);
    assert_eq!(refined_product.get_alloys(), 5);
    assert!(!r);

    r = refined_product.remove_chips(5);
    assert_eq!(refined_product.get_chips(), 15);
    assert!(r);

    r = refined_product.remove_chips(20);
    assert_eq!(refined_product.get_chips(), 15);
    assert!(!r);

    r = refined_product.remove_components(5);
    assert_eq!(refined_product.get_components(), 25);
    assert!(r);

    r = refined_product.remove_components(30);
    assert_eq!(refined_product.get_components(), 25);
    assert!(!r);
}

#[test]
fn scientific_research() {
    let mut scientific_research = ScientificResearch::default();
    assert_eq!(scientific_research.size(), 0);
    assert_eq!(scientific_research.get_amount(), 0);

    scientific_research.add_expert(Expert::new(10));
    assert_eq!(scientific_research.size(), 1);

    scientific_research.add_expert(Expert::new(20));
    assert_eq!(scientific_research.size(), 2);

    assert_eq!(scientific_research.get_amount(), 30);
}

#[test]
fn expert_level() {
    let expert = Expert::new(10);
    assert_eq!(expert.get_level(), 10);
}

#[test]
fn stocks_from_amounts() {
    assert_eq!(Food::new(7).get(), 7);
    assert_eq!(Money::new(-3).get(), -3);
    assert!(Money::new(-3).is_negative());
    assert_eq!(WorkForce::new(9).get(), 9);
    let ores = Ores::new(10, 20);
    assert_eq!(ores.get_uranium(), 10);
    assert_eq!(ores.get_rate_metals(), 20);
}
