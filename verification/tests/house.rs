use smarthouse::devices::{Device, PressureController, Socket, Thermometer};
use smarthouse::utils::PowerState;
use smarthouse::{Room, SmartHouse};

const HEADER: &str = "***** Отчет *****\n";

#[test]
fn empty_house_is_its_header() {
    let house = SmartHouse::new();
    assert!(house.fits(&Vec::new(), 0));
    assert_eq!(house.get_info(&Vec::new(), &Vec::new()), HEADER);
    assert_eq!(SmartHouse::default().get_info(&Vec::new(), &Vec::new()), HEADER);
}

#[test]
fn rooms_are_reported_in_the_order_added() {
    let devices = vec![
        Device::Socket(Socket::new(String::from("S"), PowerState::On)),
        Device::Thermometer(Thermometer::new(String::from("20"))),
    ];
    let mut rooms = vec![
        Room::new(String::from("A")),
        Room::new(String::from("B")),
        Room::new(String::from("C")),
    ];
    rooms[1].add_device(String::from("s"), 0).add_device(String::from("t"), 1);
    rooms[2].add_device(String::from("t"), 1);

    let mut house = SmartHouse::new();
    house.add_room(2).add_room(0).add_room(1);
    assert!(house.fits(&rooms, devices.len()));
    assert_eq!(
        house.get_info(&rooms, &devices),
        format!(
            "{}C\nThermometer, 20\nA\nB\nS, power is On\nThermometer, 20\n",
            HEADER
        )
    );

    let mut house = SmartHouse::new();
    house.add_room(0).add_room(1).add_room(2);
    assert_eq!(
        house.get_info(&rooms, &devices),
        format!(
            "{}A\nB\nS, power is On\nThermometer, 20\nC\nThermometer, 20\n",
            HEADER
        )
    );
}

#[test]
fn added_room_is_reported_behind_the_others() {
    let devices = vec![Device::PressureController(PressureController::new())];
    let mut rooms = vec![Room::new(String::from("A")), Room::new(String::from("B"))];
    rooms[1].add_device(String::from("p"), 0);
    let mut house = SmartHouse::new();
    house.add_room(0);
    let before = house.get_info(&rooms, &devices);
    house.add_room(1);
    let after = house.get_info(&rooms, &devices);
    assert_eq!(after, format!("{}{}", before, rooms[1].get_info(&devices)));
}

#[test]
fn rooms_with_one_name_are_both_reported() {
    let rooms = vec![Room::new(String::from("A")), Room::new(String::from("A"))];
    let mut house = SmartHouse::new();
    house.add_room(0).add_room(1).add_room(0);
    assert_eq!(house.get_info(&rooms, &Vec::new()), format!("{}A\nA\nA\n", HEADER));
}

#[test]
fn house_fits_only_stores_that_hold_its_rooms_and_devices() {
    let mut rooms = vec![Room::new(String::from("A")), Room::new(String::from("B"))];
    rooms[1].add_device(String::from("d"), 3);
    let mut house = SmartHouse::new();
    house.add_room(0);
    assert!(house.fits(&rooms, 0));
    assert!(!house.fits(&Vec::new(), 0));
    house.add_room(1);
    assert!(!house.fits(&rooms, 3));
    assert!(house.fits(&rooms, 4));
    house.add_room(2);
    assert!(!house.fits(&rooms, 4));
}

#[test]
fn end_to_end_two_reports() {
    let mut devices = vec![
        Device::Socket(Socket::new(String::from("Socket 1"), PowerState::On)),
        Device::Thermometer(Thermometer::new(format!("{}", 36.6f32))),
        Device::Socket(Socket::new(String::from("Socket 2"), PowerState::On)),
        Device::PressureController(PressureController::new()),
    ];
    let mut rooms = vec![Room::new(String::from("Кухня")), Room::new(String::from("Спальня"))];
    let mut house = SmartHouse::new();
    house.add_room(0).add_room(1);
    rooms[0]
        .add_device(String::from("Socket 1"), 0)
        .add_device(String::from("Thermometer 1"), 1);
    rooms[1].add_device(String::from("Socket 2"), 2).add_device(String::from("Pressure"), 3);

    assert!(house.fits(&rooms, devices.len()));
    let first = house.get_info(&rooms, &devices);
    let first_copy = first.clone();

    if let Device::Socket(socket) = &mut devices[0] {
        socket.power(PowerState::Off);
    }
    if let Device::PressureController(pc) = &mut devices[3] {
        pc.power(PowerState::On);
    }
    if let Device::Thermometer(thermo) = &mut devices[1] {
        thermo.set_temperature(format!("{}", 38.8f32));
    }
    if let Device::Socket(socket) = &mut devices[2] {
        socket.power(PowerState::Off);
    }
    let second = house.get_info(&rooms, &devices);

    assert_eq!(
        first,
        "***** Отчет *****\n\
         Кухня\n\
         Socket 1, power is On\n\
         Thermometer, 36.6\n\
         Спальня\n\
         Socket 2, power is On\n\
         Pressure = 0, power is Off\n"
    );
    assert_eq!(first, first_copy);
    assert_eq!(
        second,
        "***** Отчет *****\n\
         Кухня\n\
         Socket 1, power is Off\n\
         Thermometer, 38.8\n\
         Спальня\n\
         Socket 2, power is Off\n\
         Pressure = 0, power is On\n"
    );
}

#[test]
fn devices_shared_by_two_rooms() {
    let mut devices = vec![
        Device::Socket(Socket::new(String::from("Socket 1"), PowerState::On)),
        Device::Thermometer(Thermometer::new(format!("{}", 36.6f32))),
        Device::Socket(Socket::new(String::from("Socket 2"), PowerState::On)),
        Device::PressureController(PressureController::new()),
    ];
    let mut rooms = vec![Room::new(String::from("Кухня")), Room::new(String::from("Спальня"))];
    rooms[0]
        .add_device(String::from("Socket 1"), 0)
        .add_device(String::from("Thermometer 1"), 1);
    rooms[1]
        .add_device(String::from("Socket 1"), 0)
        .add_device(String::from("Thermometer 1"), 1);
    let mut house = SmartHouse::new();
    house.add_room(0).add_room(1);
    if let Device::Socket(socket) = &mut devices[0] {
        socket.power(PowerState::On);
        socket.power(PowerState::Off);
    }
    rooms[1].add_device(String::from("Socket 2"), 2).add_device(String::from("Pressure"), 3);
    assert!(house.fits(&rooms, devices.len()));
    assert_eq!(
        house.get_info(&rooms, &devices),
        "***** Отчет *****\n\
         Кухня\n\
         Socket 1, power is Off\n\
         Thermometer, 36.6\n\
         Спальня\n\
         Socket 1, power is Off\n\
         Thermometer, 36.6\n\
         Socket 2, power is On\n\
         Pressure = 0, power is Off\n"
    );
}
