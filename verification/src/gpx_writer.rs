use vstd::prelude::*;
use crate::text;
use crate::xml;
use crate::xml::{ev_attr, ev_end, ev_preserve, ev_start, ev_text, xml_events};

verus! {

broadcast use crate::xml::lemma_xml_depth_push, crate::xml::lemma_xml_attrs_push, crate::xml::lemma_xml_depth_nonneg;

/// The events that open a GPX document: the root element and its schema
/// attributes.
pub open spec fn gpx_open_events() -> Seq<(u8, Seq<char>, Seq<char>)> {
    seq![
        ev_start("gpx"@),
        ev_attr("creator"@, "activity-analyzer.app"@),
        ev_attr("version"@, "1.1"@),
        ev_attr(
            "xsi:schemaLocation"@,
            "http://www.topografix.com/GPX/1/1 http://www.topografix.com/GPX/1/1/gpx.xsd http://www.garmin.com/xmlschemas/GpxExtensions/v3 http://www.garmin.com/xmlschemas/GpxExtensionsv3.xsd http://www.garmin.com/xmlschemas/TrackPointExtension/v1 http://www.garmin.com/xmlschemas/TrackPointExtensionv1.xsd"@,
        ),
        ev_attr("xmlns"@, "http://www.topografix.com/GPX/1/1"@),
        ev_attr("xmlns:gpxtpx"@, "http://www.garmin.com/xmlschemas/TrackPointExtension/v1"@),
        ev_attr("xmlns:gpxx"@, "http://www.garmin.com/xmlschemas/GpxExtensions/v3"@),
        ev_attr("xmlns:xsi"@, "http://www.w3.org/2001/XMLSchema-instance"@),
    ]
}

/// A simple element holding preserved text: `<name>text</name>`.
pub open spec fn text_element_events(name: Seq<char>, text: Seq<char>) -> Seq<
    (u8, Seq<char>, Seq<char>),
> {
    seq![ev_start(name), ev_preserve(true), ev_text(text), ev_end(), ev_preserve(false)]
}

/// The metadata block holding the start time.
pub open spec fn gpx_metadata_events(start_time_ms: u64) -> Seq<(u8, Seq<char>, Seq<char>)> {
    seq![ev_start("metadata"@)] + text_element_events("time"@, text::ts_text(start_time_ms))
        + seq![ev_end()]
}

/// The events that open one track point: the coordinates as six-digit
/// fixed-point degrees, the elevation in three-digit fixed-point meters, and
/// the timestamp.
pub open spec fn gpx_track_point_events(
    lat_udeg: i64,
    lon_udeg: i64,
    alt_mm: i64,
    time_ms: u64,
) -> Seq<(u8, Seq<char>, Seq<char>)> {
    seq![
        ev_start("trkpt"@),
        ev_attr("lat"@, text::ascii_view(text::fixed_text(lat_udeg as int, 1_000_000, 6))),
        ev_attr("lon"@, text::ascii_view(text::fixed_text(lon_udeg as int, 1_000_000, 6))),
    ] + text_element_events("ele"@, text::ascii_view(text::fixed_text(alt_mm as int, 1000, 3)))
        + text_element_events("time"@, text::ts_text(time_ms))
}

/// Writes a GPX document into a streaming XML writer; each method appends
/// the events of one structural piece.
pub struct GpxWriter {
    pub writer: xmlwriter::XmlWriter,
}

impl GpxWriter {
    pub fn new() -> (w: GpxWriter)
        ensures
            xml_events(w.writer) == Seq::<(u8, Seq<char>, Seq<char>)>::empty(),
    {
        GpxWriter { writer: xml::new_xml_writer() }
    }

    /// Opens the root element with the GPX schema attributes.
    pub fn open(&mut self)
        ensures
            xml_events(final(self).writer) == xml_events(old(self).writer) + gpx_open_events(),
            xml::xml_depth(xml_events(final(self).writer)) == xml::xml_depth(
                xml_events(old(self).writer),
            ) + 1,
    {
        let ghost pre = xml_events(self.writer);
        xml::xml_start_element(&mut self.writer, "gpx");
        xml::xml_write_attribute(&mut self.writer, "creator", "activity-analyzer.app");
        xml::xml_write_attribute(&mut self.writer, "version", "1.1");
        xml::xml_write_attribute(
            &mut self.writer,
            "xsi:schemaLocation",
            "http://www.topografix.com/GPX/1/1 http://www.topografix.com/GPX/1/1/gpx.xsd http://www.garmin.com/xmlschemas/GpxExtensions/v3 http://www.garmin.com/xmlschemas/GpxExtensionsv3.xsd http://www.garmin.com/xmlschemas/TrackPointExtension/v1 http://www.garmin.com/xmlschemas/TrackPointExtensionv1.xsd",
        );
        xml::xml_write_attribute(&mut self.writer, "xmlns", "http://www.topografix.com/GPX/1/1");
        xml::xml_write_attribute(
            &mut self.writer,
            "xmlns:gpxtpx",
            "http://www.garmin.com/xmlschemas/TrackPointExtension/v1",
        );
        xml::xml_write_attribute(
            &mut self.writer,
            "xmlns:gpxx",
            "http://www.garmin.com/xmlschemas/GpxExtensions/v3",
        );
        xml::xml_write_attribute(
            &mut self.writer,
            "xmlns:xsi",
            "http://www.w3.org/2001/XMLSchema-instance",
        );
        proof {
            assert(xml_events(self.writer) =~= pre + gpx_open_events());
        }
    }

    /// Closes every open element and renders the document.
    pub fn close(self) -> (s: String)
        ensures
            s@ == xml::xml_render(xml_events(self.writer)),
    {
        xml::xml_end_document(self.writer)
    }

    /// Writes the metadata block holding the start time.
    pub fn write_metadata(&mut self, start_time_ms: u64)
        requires
            start_time_ms <= crate::statistics::TIME_LIMIT_MS,
        ensures
            xml_events(final(self).writer) == xml_events(old(self).writer) + gpx_metadata_events(
                start_time_ms,
            ),
            xml::xml_depth(xml_events(final(self).writer)) == xml::xml_depth(
                xml_events(old(self).writer),
            ),
    {
        let ghost pre = xml_events(self.writer);
        xml::xml_start_element(&mut self.writer, "metadata");
        xml::xml_start_element(&mut self.writer, "time");
        xml::xml_set_preserve_whitespaces(&mut self.writer, true);
        let ts = text::format_timestamp(start_time_ms);
        xml::xml_write_text(&mut self.writer, ts.as_str());
        xml::xml_end_element(&mut self.writer);
        xml::xml_set_preserve_whitespaces(&mut self.writer, false);
        xml::xml_end_element(&mut self.writer);
        proof {
            assert(xml_events(self.writer) =~= pre + gpx_metadata_events(start_time_ms));
        }
    }

    /// Writes the track name.
    pub fn write_name(&mut self, name: &str)
        requires
            xml::xml_depth(xml_events(old(self).writer)) > 0,
        ensures
            xml_events(final(self).writer) == xml_events(old(self).writer) + text_element_events(
                "name"@,
                name@,
            ),
            xml::xml_depth(xml_events(final(self).writer)) == xml::xml_depth(
                xml_events(old(self).writer),
            ),
    {
        let ghost pre = xml_events(self.writer);
        xml::xml_start_element(&mut self.writer, "name");
        xml::xml_set_preserve_whitespaces(&mut self.writer, true);
        xml::xml_write_text(&mut self.writer, name);
        xml::xml_end_element(&mut self.writer);
        xml::xml_set_preserve_whitespaces(&mut self.writer, false);
        proof {
            assert(xml_events(self.writer) =~= pre + text_element_events("name"@, name@));
        }
    }

    /// Writes the activity type.
    pub fn write_type(&mut self, activity_type: &str)
        requires
            xml::xml_depth(xml_events(old(self).writer)) > 0,
        ensures
            xml_events(final(self).writer) == xml_events(old(self).writer) + text_element_events(
                "type"@,
                activity_type@,
            ),
            xml::xml_depth(xml_events(final(self).writer)) == xml::xml_depth(
                xml_events(old(self).writer),
            ),
    {
        let ghost pre = xml_events(self.writer);
        xml::xml_start_element(&mut self.writer, "type");
        xml::xml_set_preserve_whitespaces(&mut self.writer, true);
        xml::xml_write_text(&mut self.writer, activity_type);
        xml::xml_end_element(&mut self.writer);
        xml::xml_set_preserve_whitespaces(&mut self.writer, false);
        proof {
            assert(xml_events(self.writer) =~= pre + text_element_events(
                "type"@,
                activity_type@,
            ));
        }
    }

    pub fn start_track(&mut self)
        ensures
            xml_events(final(self).writer) == xml_events(old(self).writer).push(ev_start("trk"@)),
            xml::xml_depth(xml_events(final(self).writer)) == xml::xml_depth(
                xml_events(old(self).writer),
            ) + 1,
    {
        xml::xml_start_element(&mut self.writer, "trk");
    }

    pub fn end_track(&mut self)
        ensures
            xml_events(final(self).writer) == xml_events(old(self).writer).push(ev_end()),
            xml::xml_depth(xml_events(final(self).writer)) == ({
                let d = xml::xml_depth(xml_events(old(self).writer));
                if d > 0 {
                    d - 1
                } else {
                    0int
                }
            }),
    {
        xml::xml_end_element(&mut self.writer);
    }

    pub fn start_track_segment(&mut self)
        ensures
            xml_events(final(self).writer) == xml_events(old(self).writer).push(
                ev_start("trkseg"@),
            ),
            xml::xml_depth(xml_events(final(self).writer)) == xml::xml_depth(
                xml_events(old(self).writer),
            ) + 1,
    {
        xml::xml_start_element(&mut self.writer, "trkseg");
    }

    pub fn end_track_segment(&mut self)
        ensures
            xml_events(final(self).writer) == xml_events(old(self).writer).push(ev_end()),
            xml::xml_depth(xml_events(final(self).writer)) == ({
                let d = xml::xml_depth(xml_events(old(self).writer));
                if d > 0 {
                    d - 1
                } else {
                    0int
                }
            }),
    {
        xml::xml_end_element(&mut self.writer);
    }

    /// Opens one track point with its position, elevation and timestamp.
    pub fn start_track_point(&mut self, lat_udeg: i64, lon_udeg: i64, alt_mm: i64, time_ms: u64)
        requires
            lat_udeg > i64::MIN,
            lon_udeg > i64::MIN,
            alt_mm > i64::MIN,
            time_ms <= crate::statistics::TIME_LIMIT_MS,
        ensures
            xml_events(final(self).writer) == xml_events(old(self).writer)
                + gpx_track_point_events(lat_udeg, lon_udeg, alt_mm, time_ms),
            xml::xml_depth(xml_events(final(self).writer)) == xml::xml_depth(
                xml_events(old(self).writer),
            ) + 1,
    {
        let ghost pre = xml_events(self.writer);
        xml::xml_start_element(&mut self.writer, "trkpt");
        let lat_text = text::fixed_to_string(lat_udeg, 1_000_000, 6);
        xml::xml_write_attribute(&mut self.writer, "lat", lat_text.as_str());
        let lon_text = text::fixed_to_string(lon_udeg, 1_000_000, 6);
        xml::xml_write_attribute(&mut self.writer, "lon", lon_text.as_str());
        xml::xml_start_element(&mut self.writer, "ele");
        xml::xml_set_preserve_whitespaces(&mut self.writer, true);
        let alt_text = text::fixed_to_string(alt_mm, 1000, 3);
        xml::xml_write_text(&mut self.writer, alt_text.as_str());
        xml::xml_end_element(&mut self.writer);
        xml::xml_set_preserve_whitespaces(&mut self.writer, false);
        xml::xml_start_element(&mut self.writer, "time");
        xml::xml_set_preserve_whitespaces(&mut self.writer, true);
        let ts = text::format_timestamp(time_ms);
        xml::xml_write_text(&mut self.writer, ts.as_str());
        xml::xml_end_element(&mut self.writer);
        xml::xml_set_preserve_whitespaces(&mut self.writer, false);
        proof {
            assert(xml_events(self.writer) =~= pre + gpx_track_point_events(
                lat_udeg,
                lon_udeg,
                alt_mm,
                time_ms,
            ));
        }
    }

    pub fn end_track_point(&mut self)
        ensures
            xml_events(final(self).writer) == xml_events(old(self).writer).push(ev_end()),
            xml::xml_depth(xml_events(final(self).writer)) == ({
                let d = xml::xml_depth(xml_events(old(self).writer));
                if d > 0 {
                    d - 1
                } else {
                    0int
                }
            }),
    {
        xml::xml_end_element(&mut self.writer);
    }

    pub fn start_extensions(&mut self)
        ensures
            xml_events(final(self).writer) == xml_events(old(self).writer).push(
                ev_start("extensions"@),
            ),
            xml::xml_depth(xml_events(final(self).writer)) == xml::xml_depth(
                xml_events(old(self).writer),
            ) + 1,
    {
        xml::xml_start_element(&mut self.writer, "extensions");
    }

    pub fn end_extensions(&mut self)
        ensures
            xml_events(final(self).writer) == xml_events(old(self).writer).push(ev_end()),
            xml::xml_depth(xml_events(final(self).writer)) == ({
                let d = xml::xml_depth(xml_events(old(self).writer));
                if d > 0 {
                    d - 1
                } else {
                    0int
                }
            }),
    {
        xml::xml_end_element(&mut self.writer);
    }

    pub fn start_track_point_extensions(&mut self)
        ensures
            xml_events(final(self).writer) == xml_events(old(self).writer).push(
                ev_start("gpxtpx:TrackPointExtension"@),
            ),
            xml::xml_depth(xml_events(final(self).writer)) == xml::xml_depth(
                xml_events(old(self).writer),
            ) + 1,
    {
        xml::xml_start_element(&mut self.writer, "gpxtpx:TrackPointExtension");
    }

    pub fn end_track_point_extensions(&mut self)
        ensures
            xml_events(final(self).writer) == xml_events(old(self).writer).push(ev_end()),
            xml::xml_depth(xml_events(final(self).writer)) == ({
                let d = xml::xml_depth(xml_events(old(self).writer));
                if d > 0 {
                    d - 1
                } else {
                    0int
                }
            }),
    {
        xml::xml_end_element(&mut self.writer);
    }

    /// Embeds a heart-rate reading under the open track point.
    pub fn store_heart_rate_bpm(&mut self, heart_rate_bpm: u8)
        requires
            xml::xml_depth(xml_events(old(self).writer)) > 0,
        ensures
            xml::xml_depth(xml_events(final(self).writer)) == xml::xml_depth(
                xml_events(old(self).writer),
            ),
            xml_events(final(self).writer) == xml_events(old(self).writer) + text_element_events(
                "gpxtpx:hr"@,
                text::ascii_view(text::dec_str(heart_rate_bpm as int)),
            ),
    {
        let ghost pre = xml_events(self.writer);
        xml::xml_start_element(&mut self.writer, "gpxtpx:hr");
        xml::xml_set_preserve_whitespaces(&mut self.writer, true);
        let v = text::u64_to_string(heart_rate_bpm as u64);
        xml::xml_write_text(&mut self.writer, v.as_str());
        xml::xml_end_element(&mut self.writer);
        xml::xml_set_preserve_whitespaces(&mut self.writer, false);
        proof {
            assert(xml_events(self.writer) =~= pre + text_element_events(
                "gpxtpx:hr"@,
                text::ascii_view(text::dec_str(heart_rate_bpm as int)),
            ));
        }
    }

    /// Embeds a cadence reading under the open track point.
    pub fn store_cadence_rpm(&mut self, cadence_rpm: u8)
        requires
            xml::xml_depth(xml_events(old(self).writer)) > 0,
        ensures
            xml::xml_depth(xml_events(final(self).writer)) == xml::xml_depth(
                xml_events(old(self).writer),
            ),
            xml_events(final(self).writer) == xml_events(old(self).writer) + text_element_events(
                "gpxtpx:cad"@,
                text::ascii_view(text::dec_str(cadence_rpm as int)),
            ),
    {
        let ghost pre = xml_events(self.writer);
        xml::xml_start_element(&mut self.writer, "gpxtpx:cad");
        xml::xml_set_preserve_whitespaces(&mut self.writer, true);
        let v = text::u64_to_string(cadence_rpm as u64);
        xml::xml_write_text(&mut self.writer, v.as_str());
        xml::xml_end_element(&mut self.writer);
        xml::xml_set_preserve_whitespaces(&mut self.writer, false);
        proof {
            assert(xml_events(self.writer) =~= pre + text_element_events(
                "gpxtpx:cad"@,
                text::ascii_view(text::dec_str(cadence_rpm as int)),
            ));
        }
    }

    /// Embeds a power reading under the open track point.
    pub fn store_power_in_watts(&mut self, power_in_watts: u32)
        requires
            xml::xml_depth(xml_events(old(self).writer)) > 0,
        ensures
            xml::xml_depth(xml_events(final(self).writer)) == xml::xml_depth(
                xml_events(old(self).writer),
            ),
            xml_events(final(self).writer) == xml_events(old(self).writer) + text_element_events(
                "power"@,
                text::ascii_view(text::dec_str(power_in_watts as int)),
            ),
    {
        let ghost pre = xml_events(self.writer);
        xml::xml_start_element(&mut self.writer, "power");
        xml::xml_set_preserve_whitespaces(&mut self.writer, true);
        let v = text::u64_to_string(power_in_watts as u64);
        xml::xml_write_text(&mut self.writer, v.as_str());
        xml::xml_end_element(&mut self.writer);
        xml::xml_set_preserve_whitespaces(&mut self.writer, false);
        proof {
            assert(xml_events(self.writer) =~= pre + text_element_events(
                "power"@,
                text::ascii_view(text::dec_str(power_in_watts as int)),
            ));
        }
    }
}

} // verus!
