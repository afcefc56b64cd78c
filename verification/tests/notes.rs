//! The frequency of every note name that a scale may hold.

use lyretune::temperament::{note_to_frequency, Frequency, Ratio, Temperament};

fn as_hertz(frequency: &Frequency) -> f64 {
    let ratio = match frequency.ratio {
        Ratio::Cents { cents } => 2.0_f64.powf(cents as f64 / 1200.0),
        Ratio::Fraction { numerator, denominator } => numerator as f64 / denominator as f64,
    };
    440.0 * ratio * 2.0_f64.powi(frequency.octaves as i32)
}

/// Name, octave, and the frequency in hertz under equal temperament, just
/// intonation, the historical just system and meantone.
const NOTES: [(&str, i32, [f64; 4]); 93] = [
    ("A", 1, [55.0000, 55.0000, 55.0000, 55.0000]),
    ("A", 4, [440.0000, 440.0000, 440.0000, 440.0000]),
    ("A", 6, [1760.0000, 1760.0000, 1760.0000, 1760.0000]),
    ("A#", 1, [58.2705, 58.6667, 57.9349, 57.4695]),
    ("A#", 4, [466.1638, 469.3333, 463.4789, 459.7560]),
    ("A#", 6, [1864.6550, 1877.3333, 1853.9154, 1839.0240]),
    ("A#*", 1, [59.9779, 59.9779, 58.6758, 59.9779]),
    ("A#*", 4, [479.8234, 479.8234, 469.4062, 479.8234]),
    ("A#*", 6, [1919.2936, 1919.2936, 1877.6247, 1919.2936]),
    ("A*", 1, [56.6116, 56.6116, 55.7034, 56.6116]),
    ("A*", 4, [452.8930, 452.8930, 445.6271, 452.8930]),
    ("A*", 6, [1811.5719, 1811.5719, 1782.5083, 1811.5719]),
    ("Ab", 1, [51.9131, 51.5625, 51.5545, 51.4030]),
    ("Ab", 4, [415.3047, 412.5000, 412.4360, 411.2240]),
    ("Ab", 6, [1661.2188, 1650.0000, 1649.7439, 1644.8960]),
    ("B", 1, [61.7354, 61.8750, 61.0969, 61.4900]),
    ("B", 4, [493.8833, 495.0000, 488.7749, 491.9200]),
    ("B", 6, [1975.5332, 1980.0000, 1955.0996, 1967.6800]),
    ("B*", 1, [63.5444, 63.5444, 61.8782, 63.5444]),
    ("B*", 4, [508.3552, 508.3552, 495.0257, 508.3552]),
    ("B*", 6, [2033.4207, 2033.4207, 1980.1029, 2033.4207]),
    ("Bb", 1, [58.2705, 58.6667, 57.9349, 57.4695]),
    ("Bb", 4, [466.1638, 469.3333, 463.4789, 459.7560]),
    ("Bb", 6, [1864.6550, 1877.3333, 1853.9154, 1839.0240]),
    ("C", 1, [32.7032, 33.0000, 32.5901, 32.8982]),
    ("C", 4, [261.6256, 264.0000, 260.7204, 263.1860]),
    ("C", 6, [1046.5023, 1056.0000, 1042.8816, 1052.7440]),
    ("C#", 1, [34.6478, 34.3750, 34.3688, 34.3750]),
    ("C#", 4, [277.1826, 275.0000, 274.9502, 275.0000]),
    ("C#", 6, [1108.7305, 1100.0000, 1099.8007, 1100.0000]),
    ("C#*", 1, [35.6631, 35.6631, 34.8083, 35.6631]),
    ("C#*", 4, [285.3047, 285.3047, 278.4665, 285.3047]),
    ("C#*", 6, [1141.2188, 1141.2188, 1113.8658, 1141.2188]),
    ("C*", 1, [33.6615, 33.6615, 33.0068, 33.6615]),
    ("C*", 4, [269.2918, 269.2918, 264.0547, 269.2918]),
    ("C*", 6, [1077.1671, 1077.1671, 1056.2188, 1077.1671]),
    ("Cb", 1, [30.8677, 30.9375, 30.5484, 30.7450]),
    ("Cb", 4, [246.9417, 247.5000, 244.3874, 245.9600]),
    ("Cb", 6, [987.7666, 990.0000, 977.5498, 983.8400]),
    ("D", 1, [36.7081, 36.6667, 36.6657, 36.7812]),
    ("D", 4, [293.6648, 293.3333, 293.3257, 294.2500]),
    ("D", 6, [1174.6591, 1173.3333, 1173.3028, 1177.0000]),
    ("D#", 1, [38.8909, 38.6719, 38.6669, 38.4312]),
    ("D#", 4, [311.1270, 309.3750, 309.3350, 307.4500]),
    ("D#", 6, [1244.5079, 1237.5000, 1237.3401, 1229.8000]),
    ("D#*", 1, [40.0305, 40.0305, 39.1614, 40.0305]),
    ("D#*", 4, [320.2437, 320.2437, 313.2910, 320.2437]),
    ("D#*", 6, [1280.9748, 1280.9748, 1253.1642, 1280.9748]),
    ("D*", 1, [37.7837, 37.7837, 37.1346, 37.7837]),
    ("D*", 4, [302.2698, 302.2698, 297.0770, 302.2698]),
    ("D*", 6, [1209.0792, 1209.0792, 1188.3080, 1209.0792]),
    ("Db", 1, [34.6478, 34.3750, 34.3688, 34.3750]),
    ("Db", 4, [277.1826, 275.0000, 274.9502, 275.0000]),
    ("Db", 6, [1108.7305, 1100.0000, 1099.8007, 1100.0000]),
    ("E", 1, [41.2034, 41.2500, 41.2511, 41.1208]),
    ("E", 4, [329.6276, 330.0000, 330.0086, 328.9660]),
    ("E", 6, [1318.5102, 1320.0000, 1320.0343, 1315.8640]),
    ("E#", 1, [43.6535, 44.0000, 43.4523, 42.9688]),
    ("E#", 4, [349.2282, 352.0000, 347.6182, 343.7500]),
    ("E#", 6, [1396.9129, 1408.0000, 1390.4727, 1375.0000]),
    ("E*", 1, [42.4108, 42.4108, 41.7304, 42.4108]),
    ("E*", 4, [339.2864, 339.2864, 333.8431, 339.2864]),
    ("E*", 6, [1357.1455, 1357.1455, 1335.3724, 1357.1455]),
    ("Eb", 1, [38.8909, 38.6719, 38.6669, 38.4312]),
    ("Eb", 4, [311.1270, 309.3750, 309.3350, 307.4500]),
    ("Eb", 6, [1244.5079, 1237.5000, 1237.3401, 1229.8000]),
    ("F", 1, [43.6535, 44.0000, 43.4523, 42.9688]),
    ("F", 4, [349.2282, 352.0000, 347.6182, 343.7500]),
    ("F", 6, [1396.9129, 1408.0000, 1390.4727, 1375.0000]),
    ("F#", 1, [46.2493, 45.8333, 45.8238, 45.9772]),
    ("F#", 4, [369.9944, 366.6667, 366.5907, 367.8180]),
    ("F#", 6, [1479.9777, 1466.6667, 1466.3628, 1471.2720]),
    ("F#*", 1, [47.6045, 47.6045, 46.4099, 47.6045]),
    ("F#*", 4, [380.8361, 380.8361, 371.2790, 380.8361]),
    ("F#*", 6, [1523.3443, 1523.3443, 1485.1158, 1523.3443]),
    ("F*", 1, [44.9327, 44.9327, 44.0080, 44.9327]),
    ("F*", 4, [359.4614, 359.4614, 352.0638, 359.4614]),
    ("F*", 6, [1437.8456, 1437.8456, 1408.2552, 1437.8456]),
    ("G", 1, [48.9994, 49.5000, 48.8863, 49.1947]),
    ("G", 4, [391.9954, 396.0000, 391.0908, 393.5580]),
    ("G", 6, [1567.9817, 1584.0000, 1564.3631, 1574.2320]),
    ("G#", 1, [51.9131, 51.5625, 51.5545, 51.4030]),
    ("G#", 4, [415.3047, 412.5000, 412.4360, 411.2240]),
    ("G#", 6, [1661.2188, 1650.0000, 1649.7439, 1644.8960]),
    ("G#*", 1, [53.4343, 53.4343, 52.2138, 53.4343]),
    ("G#*", 4, [427.4741, 427.4741, 417.7105, 427.4741]),
    ("G#*", 6, [1709.8962, 1709.8962, 1670.8421, 1709.8962]),
    ("G*", 1, [50.4352, 50.4352, 49.5115, 50.4352]),
    ("G*", 4, [403.4818, 403.4818, 396.0924, 403.4818]),
    ("G*", 6, [1613.9271, 1613.9271, 1584.3694, 1613.9271]),
    ("Gb", 1, [46.2493, 45.8333, 45.8238, 45.9772]),
    ("Gb", 4, [369.9944, 366.6667, 366.5907, 367.8180]),
    ("Gb", 6, [1479.9777, 1466.6667, 1466.3628, 1471.2720]),
];

#[test]
fn every_note_in_every_temperament() {
    let temperaments =
        [Temperament::Equal, Temperament::Just, Temperament::JustAncient, Temperament::Meantone];
    for (name, octave, expected) in NOTES {
        for (temperament, hertz) in temperaments.iter().zip(expected.iter()) {
            let found = as_hertz(&note_to_frequency(name, *temperament, octave));
            assert!(
                (found - hertz).abs() < 0.0002,
                "{}{} under {:?}: {} Hz, expected {} Hz",
                name,
                octave,
                temperament,
                found,
                hertz
            );
        }
    }
}
