//! The names a station can be given.
use vstd::prelude::*;

verus! {

#[derive(Debug, Clone, Copy, PartialEq, Eq, Structural)]
pub enum StationName {
    // manga - cyberpunk
    Akira, Avalon,
    Babylon,
    Chrysalis,
    Eden,
    Ronin,
    // U.S. states
    Alabama, Alaska, Arkansas,
    California, Carolina, Colorado, Connecticut,
    Dakota, Delaware,
    Florida,
    Georgia,
    Hawaii, Hampshire,
    Idaho, Illinois, Indiana, Iowa,
    Jersey,
    Kansas, Kentucky,
    Louisiana,
    Maine, Maryland, Massachusetts, Michigan, Minnesota, Mississippi, Missouri, Montana,
    Nebraska, Nevada,
    Ohio, Oklahoma, Oregon,
    Pennsylvania,
    Tennessee, Texas,
    Utah,
    Vermont, Virginia, Washington, Wisconsin, Wyoming,
    // cities
    York,
    // greek mythology
    Aether, Artemis, Athena, Atlas,
    Daedalus,
    Helios, Hemera, Hermes,
    Orion,
    Talos, Titan,
    Uranus,
    // other
    Eisenberg,
    // adjectives
    Dauntless,
    Intrepid,
    Reliant, Resolute,
    Serene,
    Valiant,
    // Shakespeare
    Aaron, Alice, Angus, Ariel,
    Beadle, Bishop,
    Caius, Ceres, Corin,
    Diana, Duncan,
    Helena,
    Julia,
    Marcus, Miranda,
    Oliver,
    Percy, Provost,
    Robin,
    Sentinel, Sentry,
    Titus,
    Viola,
    // astronomy
    Nova,
    Pulsar,
    // people - astronomers
    Copernicus,
    Galilei,
    Kepler,
    Newton,
    Sagan,
    Tyson,
    // people - CS
    Babbage, Backus,
    Conway,
    Dijkstra,
    Hamilton, Hopper,
    Kernighan, Knuth,
    Liskov,
    Rivest, Romero, Rossum,
    Shamir,
    // people - authors
    Asimov, Atwood,
    Bachman, Bradbury,
    Clarke,
    Herbert, Huxley,
    Shelley,
}

/// How many names there are.
pub const STATION_NAMES: u16 = 121;

impl StationName {
    /// The name as it is written.
    pub open spec fn text(self) -> Seq<char> {
        match self {
            StationName::Akira => "Akira"@,
            StationName::Avalon => "Avalon"@,
            StationName::Babylon => "Babylon"@,
            StationName::Chrysalis => "Chrysalis"@,
            StationName::Eden => "Eden"@,
            StationName::Ronin => "Ronin"@,
            StationName::Alabama => "Alabama"@,
            StationName::Alaska => "Alaska"@,
            StationName::Arkansas => "Arkansas"@,
            StationName::California => "California"@,
            StationName::Carolina => "Carolina"@,
            StationName::Colorado => "Colorado"@,
            StationName::Connecticut => "Connecticut"@,
            StationName::Dakota => "Dakota"@,
            StationName::Delaware => "Delaware"@,
            StationName::Florida => "Florida"@,
            StationName::Georgia => "Georgia"@,
            StationName::Hawaii => "Hawaii"@,
            StationName::Hampshire => "Hampshire"@,
            StationName::Idaho => "Idaho"@,
            StationName::Illinois => "Illinois"@,
            StationName::Indiana => "Indiana"@,
            StationName::Iowa => "Iowa"@,
            StationName::Jersey => "Jersey"@,
            StationName::Kansas => "Kansas"@,
            StationName::Kentucky => "Kentucky"@,
            StationName::Louisiana => "Louisiana"@,
            StationName::Maine => "Maine"@,
            StationName::Maryland => "Maryland"@,
            StationName::Massachusetts => "Massachusetts"@,
            StationName::Michigan => "Michigan"@,
            StationName::Minnesota => "Minnesota"@,
            StationName::Mississippi => "Mississippi"@,
            StationName::Missouri => "Missouri"@,
            StationName::Montana => "Montana"@,
            StationName::Nebraska => "Nebraska"@,
            StationName::Nevada => "Nevada"@,
            StationName::Ohio => "Ohio"@,
            StationName::Oklahoma => "Oklahoma"@,
            StationName::Oregon => "Oregon"@,
            StationName::Pennsylvania => "Pennsylvania"@,
            StationName::Tennessee => "Tennessee"@,
            StationName::Texas => "Texas"@,
            StationName::Utah => "Utah"@,
            StationName::Vermont => "Vermont"@,
            StationName::Virginia => "Virginia"@,
            StationName::Washington => "Washington"@,
            StationName::Wisconsin => "Wisconsin"@,
            StationName::Wyoming => "Wyoming"@,
            StationName::York => "York"@,
            StationName::Aether => "Aether"@,
            StationName::Artemis => "Artemis"@,
            StationName::Athena => "Athena"@,
            StationName::Atlas => "Atlas"@,
            StationName::Daedalus => "Daedalus"@,
            StationName::Helios => "Helios"@,
            StationName::Hemera => "Hemera"@,
            StationName::Hermes => "Hermes"@,
            StationName::Orion => "Orion"@,
            StationName::Talos => "Talos"@,
            StationName::Titan => "Titan"@,
            StationName::Uranus => "Uranus"@,
            StationName::Eisenberg => "Eisenberg"@,
            StationName::Dauntless => "Dauntless"@,
            StationName::Intrepid => "Intrepid"@,
            StationName::Reliant => "Reliant"@,
            StationName::Resolute => "Resolute"@,
            StationName::Serene => "Serene"@,
            StationName::Valiant => "Valiant"@,
            StationName::Aaron => "Aaron"@,
            StationName::Alice => "Alice"@,
            StationName::Angus => "Angus"@,
            StationName::Ariel => "Ariel"@,
            StationName::Beadle => "Beadle"@,
            StationName::Bishop => "Bishop"@,
            StationName::Caius => "Caius"@,
            StationName::Ceres => "Ceres"@,
            StationName::Corin => "Corin"@,
            StationName::Diana => "Diana"@,
            StationName::Duncan => "Duncan"@,
            StationName::Helena => "Helena"@,
            StationName::Julia => "Julia"@,
            StationName::Marcus => "Marcus"@,
            StationName::Miranda => "Miranda"@,
            StationName::Oliver => "Oliver"@,
            StationName::Percy => "Percy"@,
            StationName::Provost => "Provost"@,
            StationName::Robin => "Robin"@,
            StationName::Sentinel => "Sentinel"@,
            StationName::Sentry => "Sentry"@,
            StationName::Titus => "Titus"@,
            StationName::Viola => "Viola"@,
            StationName::Nova => "Nova"@,
            StationName::Pulsar => "Pulsar"@,
            StationName::Copernicus => "Copernicus"@,
            StationName::Galilei => "Galilei"@,
            StationName::Kepler => "Kepler"@,
            StationName::Newton => "Newton"@,
            StationName::Sagan => "Sagan"@,
            StationName::Tyson => "Tyson"@,
            StationName::Babbage => "Babbage"@,
            StationName::Backus => "Backus"@,
            StationName::Conway => "Conway"@,
            StationName::Dijkstra => "Dijkstra"@,
            StationName::Hamilton => "Hamilton"@,
            StationName::Hopper => "Hopper"@,
            StationName::Kernighan => "Kernighan"@,
            StationName::Knuth => "Knuth"@,
            StationName::Liskov => "Liskov"@,
            StationName::Rivest => "Rivest"@,
            StationName::Romero => "Romero"@,
            StationName::Rossum => "Rossum"@,
            StationName::Shamir => "Shamir"@,
            StationName::Asimov => "Asimov"@,
            StationName::Atwood => "Atwood"@,
            StationName::Bachman => "Bachman"@,
            StationName::Bradbury => "Bradbury"@,
            StationName::Clarke => "Clarke"@,
            StationName::Herbert => "Herbert"@,
            StationName::Huxley => "Huxley"@,
            StationName::Shelley => "Shelley"@,
        }
    }

    pub fn as_str(&self) -> (r: &'static str)
        ensures
            r@ == self.text(),
    {
        match self {
            StationName::Akira => "Akira",
            StationName::Avalon => "Avalon",
            StationName::Babylon => "Babylon",
            StationName::Chrysalis => "Chrysalis",
            StationName::Eden => "Eden",
            StationName::Ronin => "Ronin",
            StationName::Alabama => "Alabama",
            StationName::Alaska => "Alaska",
            StationName::Arkansas => "Arkansas",
            StationName::California => "California",
            StationName::Carolina => "Carolina",
            StationName::Colorado => "Colorado",
            StationName::Connecticut => "Connecticut",
            StationName::Dakota => "Dakota",
            StationName::Delaware => "Delaware",
            StationName::Florida => "Florida",
            StationName::Georgia => "Georgia",
            StationName::Hawaii => "Hawaii",
            StationName::Hampshire => "Hampshire",
            StationName::Idaho => "Idaho",
            StationName::Illinois => "Illinois",
            StationName::Indiana => "Indiana",
            StationName::Iowa => "Iowa",
            StationName::Jersey => "Jersey",
            StationName::Kansas => "Kansas",
            StationName::Kentucky => "Kentucky",
            StationName::Louisiana => "Louisiana",
            StationName::Maine => "Maine",
            StationName::Maryland => "Maryland",
            StationName::Massachusetts => "Massachusetts",
            StationName::Michigan => "Michigan",
            StationName::Minnesota => "Minnesota",
            StationName::Mississippi => "Mississippi",
            StationName::Missouri => "Missouri",
            StationName::Montana => "Montana",
            StationName::Nebraska => "Nebraska",
            StationName::Nevada => "Nevada",
            StationName::Ohio => "Ohio",
            StationName::Oklahoma => "Oklahoma",
            StationName::Oregon => "Oregon",
            StationName::Pennsylvania => "Pennsylvania",
            StationName::Tennessee => "Tennessee",
            StationName::Texas => "Texas",
            StationName::Utah => "Utah",
            StationName::Vermont => "Vermont",
            StationName::Virginia => "Virginia",
            StationName::Washington => "Washington",
            StationName::Wisconsin => "Wisconsin",
            StationName::Wyoming => "Wyoming",
            StationName::York => "York",
            StationName::Aether => "Aether",
            StationName::Artemis => "Artemis",
            StationName::Athena => "Athena",
            StationName::Atlas => "Atlas",
            StationName::Daedalus => "Daedalus",
            StationName::Helios => "Helios",
            StationName::Hemera => "Hemera",
            StationName::Hermes => "Hermes",
            StationName::Orion => "Orion",
            StationName::Talos => "Talos",
            StationName::Titan => "Titan",
            StationName::Uranus => "Uranus",
            StationName::Eisenberg => "Eisenberg",
            StationName::Dauntless => "Dauntless",
            StationName::Intrepid => "Intrepid",
            StationName::Reliant => "Reliant",
            StationName::Resolute => "Resolute",
            StationName::Serene => "Serene",
            StationName::Valiant => "Valiant",
            StationName::Aaron => "Aaron",
            StationName::Alice => "Alice",
            StationName::Angus => "Angus",
            StationName::Ariel => "Ariel",
            StationName::Beadle => "Beadle",
            StationName::Bishop => "Bishop",
            StationName::Caius => "Caius",
            StationName::Ceres => "Ceres",
            StationName::Corin => "Corin",
            StationName::Diana => "Diana",
            StationName::Duncan => "Duncan",
            StationName::Helena => "Helena",
            StationName::Julia => "Julia",
            StationName::Marcus => "Marcus",
            StationName::Miranda => "Miranda",
            StationName::Oliver => "Oliver",
            StationName::Percy => "Percy",
            StationName::Provost => "Provost",
            StationName::Robin => "Robin",
            StationName::Sentinel => "Sentinel",
            StationName::Sentry => "Sentry",
            StationName::Titus => "Titus",
            StationName::Viola => "Viola",
            StationName::Nova => "Nova",
            StationName::Pulsar => "Pulsar",
            StationName::Copernicus => "Copernicus",
            StationName::Galilei => "Galilei",
            StationName::Kepler => "Kepler",
            StationName::Newton => "Newton",
            StationName::Sagan => "Sagan",
            StationName::Tyson => "Tyson",
            StationName::Babbage => "Babbage",
            StationName::Backus => "Backus",
            StationName::Conway => "Conway",
            StationName::Dijkstra => "Dijkstra",
            StationName::Hamilton => "Hamilton",
            StationName::Hopper => "Hopper",
            StationName::Kernighan => "Kernighan",
            StationName::Knuth => "Knuth",
            StationName::Liskov => "Liskov",
            StationName::Rivest => "Rivest",
            StationName::Romero => "Romero",
            StationName::Rossum => "Rossum",
            StationName::Shamir => "Shamir",
            StationName::Asimov => "Asimov",
            StationName::Atwood => "Atwood",
            StationName::Bachman => "Bachman",
            StationName::Bradbury => "Bradbury",
            StationName::Clarke => "Clarke",
            StationName::Herbert => "Herbert",
            StationName::Huxley => "Huxley",
            StationName::Shelley => "Shelley",
        }
    }

    pub fn to_string(&self) -> (r: String)
        ensures
            r@ == self.text(),
    {
        String::from_str(self.as_str())
    }
}

/// The name at position `i` of the list above; the last one for any
/// position past its end.
pub(crate) fn station_name_at(i: u16) -> StationName {
    match i {
        0 => StationName::Akira,
        1 => StationName::Avalon,
        2 => StationName::Babylon,
        3 => StationName::Chrysalis,
        4 => StationName::Eden,
        5 => StationName::Ronin,
        6 => StationName::Alabama,
        7 => StationName::Alaska,
        8 => StationName::Arkansas,
        9 => StationName::California,
        10 => StationName::Carolina,
        11 => StationName::Colorado,
        12 => StationName::Connecticut,
        13 => StationName::Dakota,
        14 => StationName::Delaware,
        15 => StationName::Florida,
        16 => StationName::Georgia,
        17 => StationName::Hawaii,
        18 => StationName::Hampshire,
        19 => StationName::Idaho,
        20 => StationName::Illinois,
        21 => StationName::Indiana,
        22 => StationName::Iowa,
        23 => StationName::Jersey,
        24 => StationName::Kansas,
        25 => StationName::Kentucky,
        26 => StationName::Louisiana,
        27 => StationName::Maine,
        28 => StationName::Maryland,
        29 => StationName::Massachusetts,
        30 => StationName::Michigan,
        31 => StationName::Minnesota,
        32 => StationName::Mississippi,
        33 => StationName::Missouri,
        34 => StationName::Montana,
        35 => StationName::Nebraska,
        36 => StationName::Nevada,
        37 => StationName::Ohio,
        38 => StationName::Oklahoma,
        39 => StationName::Oregon,
        40 => StationName::Pennsylvania,
        41 => StationName::Tennessee,
        42 => StationName::Texas,
        43 => StationName::Utah,
        44 => StationName::Vermont,
        45 => StationName::Virginia,
        46 => StationName::Washington,
        47 => StationName::Wisconsin,
        48 => StationName::Wyoming,
        49 => StationName::York,
        50 => StationName::Aether,
        51 => StationName::Artemis,
        52 => StationName::Athena,
        53 => StationName::Atlas,
        54 => StationName::Daedalus,
        55 => StationName::Helios,
        56 => StationName::Hemera,
        57 => StationName::Hermes,
        58 => StationName::Orion,
        59 => StationName::Talos,
        60 => StationName::Titan,
        61 => StationName::Uranus,
        62 => StationName::Eisenberg,
        63 => StationName::Dauntless,
        64 => StationName::Intrepid,
        65 => StationName::Reliant,
        66 => StationName::Resolute,
        67 => StationName::Serene,
        68 => StationName::Valiant,
        69 => StationName::Aaron,
        70 => StationName::Alice,
        71 => StationName::Angus,
        72 => StationName::Ariel,
        73 => StationName::Beadle,
        74 => StationName::Bishop,
        75 => StationName::Caius,
        76 => StationName::Ceres,
        77 => StationName::Corin,
        78 => StationName::Diana,
        79 => StationName::Duncan,
        80 => StationName::Helena,
        81 => StationName::Julia,
        82 => StationName::Marcus,
        83 => StationName::Miranda,
        84 => StationName::Oliver,
        85 => StationName::Percy,
        86 => StationName::Provost,
        87 => StationName::Robin,
        88 => StationName::Sentinel,
        89 => StationName::Sentry,
        90 => StationName::Titus,
        91 => StationName::Viola,
        92 => StationName::Nova,
        93 => StationName::Pulsar,
        94 => StationName::Copernicus,
        95 => StationName::Galilei,
        96 => StationName::Kepler,
        97 => StationName::Newton,
        98 => StationName::Sagan,
        99 => StationName::Tyson,
        100 => StationName::Babbage,
        101 => StationName::Backus,
        102 => StationName::Conway,
        103 => StationName::Dijkstra,
        104 => StationName::Hamilton,
        105 => StationName::Hopper,
        106 => StationName::Kernighan,
        107 => StationName::Knuth,
        108 => StationName::Liskov,
        109 => StationName::Rivest,
        110 => StationName::Romero,
        111 => StationName::Rossum,
        112 => StationName::Shamir,
        113 => StationName::Asimov,
        114 => StationName::Atwood,
        115 => StationName::Bachman,
        116 => StationName::Bradbury,
        117 => StationName::Clarke,
        118 => StationName::Herbert,
        119 => StationName::Huxley,
        _ => StationName::Shelley,
    }
}

} // verus!
