use vstd::prelude::*;
use crate::text;
use crate::xml;
use crate::xml::{ev_attr, ev_end, ev_preserve, ev_start, ev_text, xml_events};
use crate::gpx_writer::text_element_events;

verus! {

broadcast use crate::xml::lemma_xml_depth_push, crate::xml::lemma_xml_attrs_push, crate::xml::lemma_xml_depth_nonneg;

/// The events that open a TCX document: the root element and its schema
/// attributes.
pub open spec fn tcx_open_events() -> Seq<(u8, Seq<char>, Seq<char>)> {
    seq![
        ev_start("TrainingCenterDatabase"@),
        ev_attr("xmlns"@, "http://www.garmin.com/xmlschemas/TrainingCenterDatabase/v2"@),
        ev_attr("xmlns:xsd"@, "http://www.w3.org/2001/XMLSchema"@),
        ev_attr("xmlns:xsi"@, "http://www.w3.org/2001/XMLSchema-instance"@),
        ev_attr("xmlns:tc2"@, "http://www.garmin.com/xmlschemas/TrainingCenterDatabase/v2"@),
        ev_attr(
            "targetNamespace"@,
            "http://www.garmin.com/xmlschemas/TrainingCenterDatabase/v2"@,
        ),
        ev_attr("elementFormDefault"@, "qualified"@),
    ]
}

/// Writes a TCX document into a streaming XML writer; each method appends
/// the events of one structural piece.
pub struct TcxWriter {
    pub writer: xmlwriter::XmlWriter,
}

impl TcxWriter {
    pub fn new() -> (w: TcxWriter)
        ensures
            xml_events(w.writer) == Seq::<(u8, Seq<char>, Seq<char>)>::empty(),
    {
        TcxWriter { writer: xml::new_xml_writer() }
    }

    /// Opens the root element with the TCX schema attributes.
    pub fn open(&mut self)
        ensures
            xml_events(final(self).writer) == xml_events(old(self).writer) + tcx_open_events(),
            xml::xml_depth(xml_events(final(self).writer)) == xml::xml_depth(
                xml_events(old(self).writer),
            ) + 1,
    {
        let ghost pre = xml_events(self.writer);
        xml::xml_start_element(&mut self.writer, "TrainingCenterDatabase");
        xml::xml_write_attribute(
            &mut self.writer,
            "xmlns",
            "http://www.garmin.com/xmlschemas/TrainingCenterDatabase/v2",
        );
        xml::xml_write_attribute(&mut self.writer, "xmlns:xsd", "http://www.w3.org/2001/XMLSchema");
        xml::xml_write_attribute(
            &mut self.writer,
            "xmlns:xsi",
            "http://www.w3.org/2001/XMLSchema-instance",
        );
        xml::xml_write_attribute(
            &mut self.writer,
            "xmlns:tc2",
            "http://www.garmin.com/xmlschemas/TrainingCenterDatabase/v2",
        );
        xml::xml_write_attribute(
            &mut self.writer,
            "targetNamespace",
            "http://www.garmin.com/xmlschemas/TrainingCenterDatabase/v2",
        );
        xml::xml_write_attribute(&mut self.writer, "elementFormDefault", "qualified");
        proof {
            assert(xml_events(self.writer) =~= pre + tcx_open_events());
        }
    }

    /// Closes every open element and renders the document.
    pub fn close(self) -> (s: String)
        ensures
            s@ == xml::xml_render(xml_events(self.writer)),
    {
        xml::xml_end_document(self.writer)
    }

    /// Writes the activity id: its start time.
    pub fn write_id(&mut self, start_time_ms: u64)
        requires
            start_time_ms <= crate::statistics::TIME_LIMIT_MS,
            xml::xml_depth(xml_events(old(self).writer)) > 0,
        ensures
            xml::xml_depth(xml_events(final(self).writer)) == xml::xml_depth(
                xml_events(old(self).writer),
            ),
            xml_events(final(self).writer) == xml_events(old(self).writer) + text_element_events(
                "Id"@,
                text::ts_text(start_time_ms),
            ),
    {
        let ghost pre = xml_events(self.writer);
        xml::xml_start_element(&mut self.writer, "Id");
        xml::xml_set_preserve_whitespaces(&mut self.writer, true);
        let ts = text::format_timestamp(start_time_ms);
        xml::xml_write_text(&mut self.writer, ts.as_str());
        xml::xml_end_element(&mut self.writer);
        xml::xml_set_preserve_whitespaces(&mut self.writer, false);
        proof {
            assert(xml_events(self.writer) =~= pre + text_element_events(
                "Id"@,
                text::ts_text(start_time_ms),
            ));
        }
    }

    pub fn start_activities(&mut self)
        ensures
            xml_events(final(self).writer) == xml_events(old(self).writer).push(
                ev_start("Activities"@),
            ),
            xml::xml_depth(xml_events(final(self).writer)) == xml::xml_depth(
                xml_events(old(self).writer),
            ) + 1,
    {
        xml::xml_start_element(&mut self.writer, "Activities");
    }

    pub fn end_activities(&mut self)
        ensures
            xml_events(final(self).writer) == xml_events(old(self).writer).push(ev_end()),
            xml::xml_depth(xml_events(final(self).writer)) == ({
                let d = xml::xml_depth(xml_events(old(self).writer));
                if d > 0 {
                    d - 1
                } else {
                    0int
                }
            }),
    {
        xml::xml_end_element(&mut self.writer);
    }

    /// Opens one activity with its sport attribute.
    pub fn start_activity(&mut self, description: &str)
        ensures
            xml_events(final(self).writer) == xml_events(old(self).writer).push(
                ev_start("Activity"@),
            ).push(ev_attr("Sport"@, description@)),
            xml::xml_depth(xml_events(final(self).writer)) == xml::xml_depth(
                xml_events(old(self).writer),
            ) + 1,
    {
        xml::xml_start_element(&mut self.writer, "Activity");
        xml::xml_write_attribute(&mut self.writer, "Sport", description);
    }

    pub fn end_activity(&mut self)
        ensures
            xml_events(final(self).writer) == xml_events(old(self).writer).push(ev_end()),
            xml::xml_depth(xml_events(final(self).writer)) == ({
                let d = xml::xml_depth(xml_events(old(self).writer));
                if d > 0 {
                    d - 1
                } else {
                    0int
                }
            }),
    {
        xml::xml_end_element(&mut self.writer);
    }

    /// Opens one lap with its start-time attribute.
    pub fn start_lap(&mut self, start_time_ms: u64)
        requires
            start_time_ms <= crate::statistics::TIME_LIMIT_MS,
        ensures
            xml_events(final(self).writer) == xml_events(old(self).writer).push(
                ev_start("Lap"@),
            ).push(ev_attr("StartTime"@, text::ts_text(start_time_ms))),
            xml::xml_depth(xml_events(final(self).writer)) == xml::xml_depth(
                xml_events(old(self).writer),
            ) + 1,
    {
        xml::xml_start_element(&mut self.writer, "Lap");
        let ts = text::format_timestamp(start_time_ms);
        xml::xml_write_attribute(&mut self.writer, "StartTime", ts.as_str());
    }

    pub fn end_lap(&mut self)
        ensures
            xml_events(final(self).writer) == xml_events(old(self).writer).push(ev_end()),
            xml::xml_depth(xml_events(final(self).writer)) == ({
                let d = xml::xml_depth(xml_events(old(self).writer));
                if d > 0 {
                    d - 1
                } else {
                    0int
                }
            }),
    {
        xml::xml_end_element(&mut self.writer);
    }

    /// Writes the lap duration, in seconds.
    pub fn store_lap_seconds(&mut self, time_sec: u64)
        requires
            xml::xml_depth(xml_events(old(self).writer)) > 0,
        ensures
            xml::xml_depth(xml_events(final(self).writer)) == xml::xml_depth(
                xml_events(old(self).writer),
            ),
            xml_events(final(self).writer) == xml_events(old(self).writer) + text_element_events(
                "TotalTimeSeconds"@,
                text::ascii_view(text::dec_str(time_sec as int)),
            ),
    {
        let ghost pre = xml_events(self.writer);
        xml::xml_start_element(&mut self.writer, "TotalTimeSeconds");
        xml::xml_set_preserve_whitespaces(&mut self.writer, true);
        let v = text::u64_to_string(time_sec);
        xml::xml_write_text(&mut self.writer, v.as_str());
        xml::xml_end_element(&mut self.writer);
        xml::xml_set_preserve_whitespaces(&mut self.writer, false);
        proof {
            assert(xml_events(self.writer) =~= pre + text_element_events(
                "TotalTimeSeconds"@,
                text::ascii_view(text::dec_str(time_sec as int)),
            ));
        }
    }

    /// Writes the lap distance, in fixed-point meters.
    pub fn store_lap_distance(&mut self, distance_mm: u64)
        requires
            xml::xml_depth(xml_events(old(self).writer)) > 0,
            distance_mm <= 0x7FFF_FFFF_FFFF_FFFF,
        ensures
            xml::xml_depth(xml_events(final(self).writer)) == xml::xml_depth(
                xml_events(old(self).writer),
            ),
            xml_events(final(self).writer) == xml_events(old(self).writer) + text_element_events(
                "DistanceMeters"@,
                text::ascii_view(text::fixed_text(distance_mm as int, 1000, 3)),
            ),
    {
        let ghost pre = xml_events(self.writer);
        xml::xml_start_element(&mut self.writer, "DistanceMeters");
        xml::xml_set_preserve_whitespaces(&mut self.writer, true);
        let v = text::fixed_to_string(distance_mm as i64, 1000, 3);
        xml::xml_write_text(&mut self.writer, v.as_str());
        xml::xml_end_element(&mut self.writer);
        xml::xml_set_preserve_whitespaces(&mut self.writer, false);
        proof {
            assert(xml_events(self.writer) =~= pre + text_element_events(
                "DistanceMeters"@,
                text::ascii_view(text::fixed_text(distance_mm as int, 1000, 3)),
            ));
        }
    }

    /// Writes the lap calories.
    pub fn store_lap_calories(&mut self, calories: u16)
        requires
            xml::xml_depth(xml_events(old(self).writer)) > 0,
        ensures
            xml::xml_depth(xml_events(final(self).writer)) == xml::xml_depth(
                xml_events(old(self).writer),
            ),
            xml_events(final(self).writer) == xml_events(old(self).writer) + text_element_events(
                "Calories"@,
                text::ascii_view(text::dec_str(calories as int)),
            ),
    {
        let ghost pre = xml_events(self.writer);
        xml::xml_start_element(&mut self.writer, "Calories");
        xml::xml_set_preserve_whitespaces(&mut self.writer, true);
        let v = text::u64_to_string(calories as u64);
        xml::xml_write_text(&mut self.writer, v.as_str());
        xml::xml_end_element(&mut self.writer);
        xml::xml_set_preserve_whitespaces(&mut self.writer, false);
        proof {
            assert(xml_events(self.writer) =~= pre + text_element_events(
                "Calories"@,
                text::ascii_view(text::dec_str(calories as int)),
            ));
        }
    }

    /// Writes the lap maximum speed, in fixed-point meters per second.
    pub fn store_lap_max_speed(&mut self, max_speed_mm_s: u64)
        requires
            xml::xml_depth(xml_events(old(self).writer)) > 0,
            max_speed_mm_s <= 0x7FFF_FFFF_FFFF_FFFF,
        ensures
            xml::xml_depth(xml_events(final(self).writer)) == xml::xml_depth(
                xml_events(old(self).writer),
            ),
            xml_events(final(self).writer) == xml_events(old(self).writer) + text_element_events(
                "MaximumSpeed"@,
                text::ascii_view(text::fixed_text(max_speed_mm_s as int, 1000, 3)),
            ),
    {
        let ghost pre = xml_events(self.writer);
        xml::xml_start_element(&mut self.writer, "MaximumSpeed");
        xml::xml_set_preserve_whitespaces(&mut self.writer, true);
        let v = text::fixed_to_string(max_speed_mm_s as i64, 1000, 3);
        xml::xml_write_text(&mut self.writer, v.as_str());
        xml::xml_end_element(&mut self.writer);
        xml::xml_set_preserve_whitespaces(&mut self.writer, false);
        proof {
            assert(xml_events(self.writer) =~= pre + text_element_events(
                "MaximumSpeed"@,
                text::ascii_view(text::fixed_text(max_speed_mm_s as int, 1000, 3)),
            ));
        }
    }

    pub fn start_track(&mut self)
        ensures
            xml_events(final(self).writer) == xml_events(old(self).writer).push(
                ev_start("Track"@),
            ),
            xml::xml_depth(xml_events(final(self).writer)) == xml::xml_depth(
                xml_events(old(self).writer),
            ) + 1,
    {
        xml::xml_start_element(&mut self.writer, "Track");
    }

    pub fn end_track(&mut self)
        ensures
            xml_events(final(self).writer) == xml_events(old(self).writer).push(ev_end()),
            xml::xml_depth(xml_events(final(self).writer)) == ({
                let d = xml::xml_depth(xml_events(old(self).writer));
                if d > 0 {
                    d - 1
                } else {
                    0int
                }
            }),
    {
        xml::xml_end_element(&mut self.writer);
    }

    pub fn start_trackpoint(&mut self)
        ensures
            xml_events(final(self).writer) == xml_events(old(self).writer).push(
                ev_start("Trackpoint"@),
            ),
            xml::xml_depth(xml_events(final(self).writer)) == xml::xml_depth(
                xml_events(old(self).writer),
            ) + 1,
    {
        xml::xml_start_element(&mut self.writer, "Trackpoint");
    }

    pub fn end_trackpoint(&mut self)
        ensures
            xml_events(final(self).writer) == xml_events(old(self).writer).push(ev_end()),
            xml::xml_depth(xml_events(final(self).writer)) == ({
                let d = xml::xml_depth(xml_events(old(self).writer));
                if d > 0 {
                    d - 1
                } else {
                    0int
                }
            }),
    {
        xml::xml_end_element(&mut self.writer);
    }

    pub fn start_trackpoint_extensions(&mut self)
        ensures
            xml_events(final(self).writer) == xml_events(old(self).writer).push(
                ev_start("Extensions"@),
            ).push(ev_start("TPX"@)),
            xml::xml_depth(xml_events(final(self).writer)) == xml::xml_depth(
                xml_events(old(self).writer),
            ) + 2,
    {
        xml::xml_start_element(&mut self.writer, "Extensions");
        xml::xml_start_element(&mut self.writer, "TPX");
    }

    pub fn end_trackpoint_extensions(&mut self)
        ensures
            xml_events(final(self).writer) == xml_events(old(self).writer).push(ev_end()).push(
                ev_end(),
            ),
            xml::xml_depth(xml_events(old(self).writer)) >= 2 ==> xml::xml_depth(
                xml_events(final(self).writer),
            ) == xml::xml_depth(xml_events(old(self).writer)) - 2,
    {
        xml::xml_end_element(&mut self.writer);
        xml::xml_end_element(&mut self.writer);
    }

    /// Writes the trackpoint time.
    pub fn store_time(&mut self, date_time_ms: u64)
        requires
            date_time_ms <= crate::statistics::TIME_LIMIT_MS,
            xml::xml_depth(xml_events(old(self).writer)) > 0,
        ensures
            xml::xml_depth(xml_events(final(self).writer)) == xml::xml_depth(
                xml_events(old(self).writer),
            ),
            xml_events(final(self).writer) == xml_events(old(self).writer) + text_element_events(
                "Time"@,
                text::ts_text(date_time_ms),
            ),
    {
        let ghost pre = xml_events(self.writer);
        xml::xml_start_element(&mut self.writer, "Time");
        xml::xml_set_preserve_whitespaces(&mut self.writer, true);
        let ts = text::format_timestamp(date_time_ms);
        xml::xml_write_text(&mut self.writer, ts.as_str());
        xml::xml_end_element(&mut self.writer);
        xml::xml_set_preserve_whitespaces(&mut self.writer, false);
        proof {
            assert(xml_events(self.writer) =~= pre + text_element_events(
                "Time"@,
                text::ts_text(date_time_ms),
            ));
        }
    }

    /// Writes the trackpoint altitude, in fixed-point meters.
    pub fn store_altitude_meters(&mut self, altitude_mm: i64)
        requires
            xml::xml_depth(xml_events(old(self).writer)) > 0,
            altitude_mm > i64::MIN,
        ensures
            xml::xml_depth(xml_events(final(self).writer)) == xml::xml_depth(
                xml_events(old(self).writer),
            ),
            xml_events(final(self).writer) == xml_events(old(self).writer) + text_element_events(
                "AltitudeMeters"@,
                text::ascii_view(text::fixed_text(altitude_mm as int, 1000, 3)),
            ),
    {
        let ghost pre = xml_events(self.writer);
        xml::xml_start_element(&mut self.writer, "AltitudeMeters");
        xml::xml_set_preserve_whitespaces(&mut self.writer, true);
        let v = text::fixed_to_string(altitude_mm, 1000, 3);
        xml::xml_write_text(&mut self.writer, v.as_str());
        xml::xml_end_element(&mut self.writer);
        xml::xml_set_preserve_whitespaces(&mut self.writer, false);
        proof {
            assert(xml_events(self.writer) =~= pre + text_element_events(
                "AltitudeMeters"@,
                text::ascii_view(text::fixed_text(altitude_mm as int, 1000, 3)),
            ));
        }
    }

    /// Writes the trackpoint cumulative distance, in fixed-point meters.
    pub fn store_distance_meters(&mut self, distance_mm: u64)
        requires
            xml::xml_depth(xml_events(old(self).writer)) > 0,
            distance_mm <= 0x7FFF_FFFF_FFFF_FFFF,
        ensures
            xml::xml_depth(xml_events(final(self).writer)) == xml::xml_depth(
                xml_events(old(self).writer),
            ),
            xml_events(final(self).writer) == xml_events(old(self).writer) + text_element_events(
                "DistanceMeters"@,
                text::ascii_view(text::fixed_text(distance_mm as int, 1000, 3)),
            ),
    {
        let ghost pre = xml_events(self.writer);
        xml::xml_start_element(&mut self.writer, "DistanceMeters");
        xml::xml_set_preserve_whitespaces(&mut self.writer, true);
        let v = text::fixed_to_string(distance_mm as i64, 1000, 3);
        xml::xml_write_text(&mut self.writer, v.as_str());
        xml::xml_end_element(&mut self.writer);
        xml::xml_set_preserve_whitespaces(&mut self.writer, false);
        proof {
            assert(xml_events(self.writer) =~= pre + text_element_events(
                "DistanceMeters"@,
                text::ascii_view(text::fixed_text(distance_mm as int, 1000, 3)),
            ));
        }
    }

    /// Writes the trackpoint heart rate.
    pub fn store_heart_rate_bpm(&mut self, heart_rate_bpm: u8)
        requires
            xml::xml_depth(xml_events(old(self).writer)) > 0,
        ensures
            xml::xml_depth(xml_events(final(self).writer)) == xml::xml_depth(
                xml_events(old(self).writer),
            ),
            xml_events(final(self).writer) == xml_events(old(self).writer).push(
                ev_start("HeartRateBpm"@),
            ) + text_element_events(
                "Value"@,
                text::ascii_view(text::dec_str(heart_rate_bpm as int)),
            ) + seq![ev_end()],
    {
        let ghost pre = xml_events(self.writer);
        xml::xml_start_element(&mut self.writer, "HeartRateBpm");
        xml::xml_start_element(&mut self.writer, "Value");
        xml::xml_set_preserve_whitespaces(&mut self.writer, true);
        let v = text::u64_to_string(heart_rate_bpm as u64);
        xml::xml_write_text(&mut self.writer, v.as_str());
        xml::xml_end_element(&mut self.writer);
        xml::xml_set_preserve_whitespaces(&mut self.writer, false);
        xml::xml_end_element(&mut self.writer);
        proof {
            assert(xml_events(self.writer) =~= pre.push(ev_start("HeartRateBpm"@))
                + text_element_events(
                "Value"@,
                text::ascii_view(text::dec_str(heart_rate_bpm as int)),
            ) + seq![ev_end()]);
        }
    }

    /// Writes the trackpoint cadence.
    pub fn store_cadence_rpm(&mut self, cadence_rpm: u8)
        requires
            xml::xml_depth(xml_events(old(self).writer)) > 0,
        ensures
            xml::xml_depth(xml_events(final(self).writer)) == xml::xml_depth(
                xml_events(old(self).writer),
            ),
            xml_events(final(self).writer) == xml_events(old(self).writer) + text_element_events(
                "Cadence"@,
                text::ascii_view(text::dec_str(cadence_rpm as int)),
            ),
    {
        let ghost pre = xml_events(self.writer);
        xml::xml_start_element(&mut self.writer, "Cadence");
        xml::xml_set_preserve_whitespaces(&mut self.writer, true);
        let v = text::u64_to_string(cadence_rpm as u64);
        xml::xml_write_text(&mut self.writer, v.as_str());
        xml::xml_end_element(&mut self.writer);
        xml::xml_set_preserve_whitespaces(&mut self.writer, false);
        proof {
            assert(xml_events(self.writer) =~= pre + text_element_events(
                "Cadence"@,
                text::ascii_view(text::dec_str(cadence_rpm as int)),
            ));
        }
    }

    /// Writes the trackpoint power.
    pub fn store_power_in_watts(&mut self, power_in_watts: u32)
        requires
            xml::xml_depth(xml_events(old(self).writer)) > 0,
        ensures
            xml::xml_depth(xml_events(final(self).writer)) == xml::xml_depth(
                xml_events(old(self).writer),
            ),
            xml_events(final(self).writer) == xml_events(old(self).writer) + text_element_events(
                "Watts"@,
                text::ascii_view(text::dec_str(power_in_watts as int)),
            ),
    {
        let ghost pre = xml_events(self.writer);
        xml::xml_start_element(&mut self.writer, "Watts");
        xml::xml_set_preserve_whitespaces(&mut self.writer, true);
        let v = text::u64_to_string(power_in_watts as u64);
        xml::xml_write_text(&mut self.writer, v.as_str());
        xml::xml_end_element(&mut self.writer);
        xml::xml_set_preserve_whitespaces(&mut self.writer, false);
        proof {
            assert(xml_events(self.writer) =~= pre + text_element_events(
                "Watts"@,
                text::ascii_view(text::dec_str(power_in_watts as int)),
            ));
        }
    }

    /// Writes the trackpoint position, in fixed-point degrees.
    pub fn store_position(&mut self, lat_udeg: i64, lon_udeg: i64)
        requires
            xml::xml_depth(xml_events(old(self).writer)) > 0,
            lat_udeg > i64::MIN,
            lon_udeg > i64::MIN,
        ensures
            xml::xml_depth(xml_events(final(self).writer)) == xml::xml_depth(
                xml_events(old(self).writer),
            ),
            xml_events(final(self).writer) == xml_events(old(self).writer).push(
                ev_start("Position"@),
            ) + text_element_events(
                "LatitudeDegrees"@,
                text::ascii_view(text::fixed_text(lat_udeg as int, 1_000_000, 6)),
            ) + text_element_events(
                "LongitudeDegrees"@,
                text::ascii_view(text::fixed_text(lon_udeg as int, 1_000_000, 6)),
            ) + seq![ev_end()],
    {
        let ghost pre = xml_events(self.writer);
        xml::xml_start_element(&mut self.writer, "Position");
        xml::xml_start_element(&mut self.writer, "LatitudeDegrees");
        xml::xml_set_preserve_whitespaces(&mut self.writer, true);
        let lat = text::fixed_to_string(lat_udeg, 1_000_000, 6);
        xml::xml_write_text(&mut self.writer, lat.as_str());
        xml::xml_end_element(&mut self.writer);
        xml::xml_set_preserve_whitespaces(&mut self.writer, false);
        xml::xml_start_element(&mut self.writer, "LongitudeDegrees");
        xml::xml_set_preserve_whitespaces(&mut self.writer, true);
        let lon = text::fixed_to_string(lon_udeg, 1_000_000, 6);
        xml::xml_write_text(&mut self.writer, lon.as_str());
        xml::xml_end_element(&mut self.writer);
        xml::xml_set_preserve_whitespaces(&mut self.writer, false);
        xml::xml_end_element(&mut self.writer);
        proof {
            assert(xml_events(self.writer) =~= pre.push(ev_start("Position"@))
                + text_element_events(
                "LatitudeDegrees"@,
                text::ascii_view(text::fixed_text(lat_udeg as int, 1_000_000, 6)),
            ) + text_element_events(
                "LongitudeDegrees"@,
                text::ascii_view(text::fixed_text(lon_udeg as int, 1_000_000, 6)),
            ) + seq![ev_end()]);
        }
    }
}

} // verus!
