use lifxi::http::client::request;
use lifxi::http::{
    AsRequest, Attempts, Binary32, Budget, Client, Color, Direction, Duration, Method, Power,
    Randomize, Retry, Selector, State,
};

fn num(x: f32) -> Binary32 {
    Binary32::from_bits(x.to_bits())
}

#[test]
fn client_keeps_the_token() {
    assert_eq!(Client::new("secret-token").token, "secret-token");
    assert_eq!(Client::new("secret-token").authorization(), "Bearer secret-token");
}

#[test]
fn client_paths_follow_the_selector() {
    let client = Client::new("foo");
    let lights = client.select(Selector::Group("Living Room".to_string()).zoned(0..2).random());
    assert_eq!(lights.list().path, "/lights/group:Living Room|0|1:random");
    assert_eq!(lights.list().method, Method::Get);
    assert_eq!(lights.list().attempts.get(), 1);
    assert_eq!(lights.toggle().path(), "/lights/group:Living Room|0|1:random/toggle");
    assert_eq!(lights.set_state().path(), "/lights/group:Living Room|0|1:random/state");
    assert_eq!(
        lights.change_state().path(),
        "/lights/group:Living Room|0|1:random/state/delta"
    );
    assert_eq!(lights.cycle().path(), "/lights/group:Living Room|0|1:random/cycle");
    assert_eq!(
        lights.breathe(Color::Red).path(),
        "/lights/group:Living Room|0|1:random/effects/breathe"
    );
    assert_eq!(
        lights.pulse(Color::Red).path(),
        "/lights/group:Living Room|0|1:random/effects/pulse"
    );
}

#[test]
fn client_paths_without_a_selector() {
    let client = Client::new("foo");
    assert_eq!(client.set_states().path(), "/lights/states");
    let scenes = client.scenes();
    assert_eq!(scenes.list().path, "/scenes");
    assert_eq!(scenes.list().method, Method::Get);
    assert_eq!(
        scenes.activate("7d9ab1b2").path(),
        "/scenes/scene_id:7d9ab1b2/activate"
    );
    assert_eq!(client.validate(&Color::Hue(120), "").path, "/color?string=hue:120");
    assert_eq!(
        client.validate(&Color::Saturation(num(0.5)), "0.5").path,
        "/color?string=saturation:0.5"
    );
    assert_eq!(
        client.validate(&Color::Custom("cyan".to_string()), "").url(),
        "https://api.lifx.com/v1/color?string=cyan"
    );
}

#[test]
fn client_verbs() {
    let client = Client::new("foo");
    let lights = client.select(Selector::All);
    let toggle = lights.toggle();
    let set = lights.set_state();
    let change = lights.change_state();
    let cycle = lights.cycle();
    let breathe = lights.breathe(Color::Blue);
    let pulse = lights.pulse(Color::Blue);
    let states = client.set_states();
    let scenes = client.scenes();
    let activate = scenes.activate("x");
    assert_eq!(request(&toggle).method, Method::Post);
    assert_eq!(request(&set).method, Method::Put);
    assert_eq!(request(&change).method, Method::Post);
    assert_eq!(request(&cycle).method, Method::Post);
    assert_eq!(request(&breathe).method, Method::Post);
    assert_eq!(request(&pulse).method, Method::Post);
    assert_eq!(request(&states).method, Method::Put);
    assert_eq!(request(&activate).method, Method::Put);
    assert_eq!(Method::Get.as_str(), "GET");
    assert_eq!(Method::Put.as_str(), "PUT");
    assert_eq!(Method::Post.as_str(), "POST");
}

#[test]
fn client_set_state_accumulates() {
    let client = Client::new("foo");
    let lights = client.select(Selector::All);
    let builder = lights
        .set_state()
        .color(Color::Red)
        .power(true)
        .brightness(num(0.1))
        .transition(::std::time::Duration::new(7, 0))
        .infrared(num(0.8))
        .fast(true)
        .retries(Budget::new(4).unwrap());
    let request = request(&builder);
    assert_eq!(request.path, "/lights/all/state");
    assert_eq!(request.url(), "https://api.lifx.com/v1/lights/all/state");
    assert_eq!(request.attempts.get(), 4);
    assert_eq!(request.body.state.color, Some(Color::Red));
    assert_eq!(request.body.state.power, Some(Power(true)));
    assert_eq!(request.body.state.brightness, Some(num(0.1)));
    assert_eq!(request.body.state.duration, Some(Duration::from_secs(7)));
    assert_eq!(request.body.state.infrared, Some(num(0.8)));
    assert_eq!(request.body.fast, Some(true));
    assert_eq!(request.client.token, "foo");
}

#[test]
fn client_attempts_default_to_one() {
    let client = Client::new("foo");
    let lights = client.select(Selector::All);
    assert_eq!(lights.set_state().attempts().get(), 1);
    assert_eq!(lights.set_state().retries(Budget::new(9).unwrap()).attempts().get(), 9);
    assert_eq!(lights.set_state().retries(Budget::new(9).unwrap()).retry().attempts().get(), 1);
    let mut toggle = lights.toggle();
    toggle.set_attempts(Budget::new(3).unwrap());
    assert_eq!(toggle.attempts().get(), 3);
    let timed = toggle.transition(::std::time::Duration::new(2, 0));
    assert_eq!(timed.path, "/lights/all/toggle");
    assert_eq!(timed.method, Method::Post);
    assert_eq!(timed.body, Duration::from_secs(2));
    assert_eq!(timed.attempts.get(), 3);
    let listing = lights.list().retries(Budget::new(2).unwrap());
    assert_eq!(listing.attempts.get(), 2);
    assert_eq!(listing.path, "/lights/all");
}

#[test]
fn client_change_state_accumulates() {
    let client = Client::new("foo");
    let lights = client.select(Selector::All);
    let builder = lights
        .change_state()
        .power(true)
        .saturation(num(-0.1))
        .brightness(num(0.1))
        .hue(-60)
        .kelvin(-100)
        .transition(::std::time::Duration::new(7, 0))
        .infrared(num(0.1));
    let body = builder.body();
    assert_eq!(body.power, Some(Power(true)));
    assert_eq!(body.saturation, Some(num(-0.1)));
    assert_eq!(body.brightness, Some(num(0.1)));
    assert_eq!(body.hue, Some(-60));
    assert_eq!(body.kelvin, Some(-100));
    assert_eq!(body.duration, Some(Duration::from_secs(7)));
    assert_eq!(body.infrared, Some(num(0.1)));
}

#[test]
fn client_cycle_keeps_order_and_turns() {
    let client = Client::new("foo");
    let lights = client.select(Selector::All);
    let red = State::builder().color(Color::Red);
    let green = State::builder().color(Color::Green);
    let shared = State::builder().power(true);
    let cycle = lights.cycle().add(red.clone()).add(green.clone()).rev().default(shared.clone());
    assert_eq!(cycle.inner.states, vec![red, green]);
    assert_eq!(cycle.inner.direction, Direction::Backward);
    assert_eq!(cycle.inner.default, Some(shared));
    assert_eq!(cycle.rev().inner.direction, Direction::Forward);
    assert_eq!(Direction::Forward.as_str(), "forward");
    assert_eq!(Direction::Backward.as_str(), "backward");
}

#[test]
fn client_set_states_renders_each_selector() {
    let client = Client::new("foo");
    let on = State::builder().power(true);
    let off = State::builder().power(false);
    let request = client
        .set_states()
        .add(Selector::Label("Desk".to_string()).zoned(vec![1, 2]), on.clone())
        .add(Selector::All.random(), off.clone())
        .default(on.clone())
        .fast(false);
    assert_eq!(request.inner.new.len(), 2);
    assert_eq!(request.inner.new[0].selector, "label:Desk|1|2");
    assert_eq!(request.inner.new[0].state, on);
    assert_eq!(request.inner.new[1].selector, "all:random");
    assert_eq!(request.inner.new[1].state, off);
    assert_eq!(request.inner.default, Some(on));
    assert_eq!(request.inner.fast, Some(false));
}

#[test]
fn client_effects_accumulate() {
    let client = Client::new("foo");
    let lights = client.select(Selector::All);
    let breathe = lights
        .breathe(Color::Orange)
        .from(Color::Purple)
        .power(true)
        .cycles(100)
        .period(::std::time::Duration::new(20, 0))
        .peak(num(0.8))
        .persist(true);
    assert_eq!(breathe.inner.color, Color::Orange);
    assert_eq!(breathe.inner.from, Some(Color::Purple));
    assert_eq!(breathe.inner.power_on, Some(true));
    assert_eq!(breathe.inner.cycles, Some(100));
    assert_eq!(breathe.inner.period, Some(Duration::from_secs(20)));
    assert_eq!(breathe.inner.peak, Some(num(0.8)));
    assert_eq!(breathe.inner.persist, Some(true));
    let pulse = lights.pulse(Color::Orange).cycles(3);
    assert_eq!(pulse.inner.color, Color::Orange);
    assert_eq!(pulse.inner.cycles, Some(3));
    assert_eq!(pulse.inner.from, None);
    assert_eq!(pulse.inner.persist, None);
}

#[test]
fn client_activate_accumulates() {
    let client = Client::new("foo");
    let scenes = client.scenes();
    let state = State::builder().brightness(num(0.5));
    let activate = scenes
        .activate("abc")
        .transition(::std::time::Duration::new(3, 0))
        .ignore("power")
        .ignore("infrared")
        .overwrite(state.clone())
        .fast(true);
    assert_eq!(activate.uuid, "abc");
    assert_eq!(activate.inner.transition, Some(Duration::from_secs(3)));
    assert_eq!(activate.inner.ignore, vec!["power".to_string(), "infrared".to_string()]);
    assert_eq!(activate.inner.overrides, Some(state));
    assert_eq!(activate.inner.fast, Some(true));
}
