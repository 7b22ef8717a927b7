//! Human-readable rendering of packets for diagnostics: the packet
//! type with its sequence number (or error code), the resolved
//! component and command names, the raw option flags, and a best-effort
//! content dump. The dump comes from the external structured-value
//! codec, which the caller runs outside the library and may guard
//! against malformed buffers.

use vstd::prelude::*;

use crate::packet::{Packet, PacketHeader, PacketType};

verus! {

/// The decimal digit character for a value below ten.
pub open spec fn spec_digit_char(d: nat) -> char {
    if d == 0 {
        '0'
    } else if d == 1 {
        '1'
    } else if d == 2 {
        '2'
    } else if d == 3 {
        '3'
    } else if d == 4 {
        '4'
    } else if d == 5 {
        '5'
    } else if d == 6 {
        '6'
    } else if d == 7 {
        '7'
    } else if d == 8 {
        '8'
    } else {
        '9'
    }
}

/// The hexadecimal digit character (lower case) for a value below
/// sixteen.
pub open spec fn spec_hex_char(d: nat) -> char {
    if d < 10 {
        spec_digit_char(d)
    } else if d == 10 {
        'a'
    } else if d == 11 {
        'b'
    } else if d == 12 {
        'c'
    } else if d == 13 {
        'd'
    } else if d == 14 {
        'e'
    } else {
        'f'
    }
}

/// The decimal digits of `n`, most significant first, with no leading
/// zeros (a single zero for zero).
pub open spec fn spec_dec(n: nat) -> Seq<char>
    decreases n,
{
    if n < 10 {
        seq![spec_digit_char(n)]
    } else {
        spec_dec(n / 10) + seq![spec_digit_char(n % 10)]
    }
}

/// A 16 bit value in the form `0x` followed by exactly four lower-case
/// hexadecimal digits.
pub open spec fn spec_hex4(v: nat) -> Seq<char> {
    seq!['0', 'x'] + seq![
        spec_hex_char((v / 4096) % 16),
        spec_hex_char((v / 256) % 16),
        spec_hex_char((v / 16) % 16),
        spec_hex_char(v % 16),
    ]
}

/// Appends one decimal digit character.
fn append_digit(s: &mut String, d: u8)
    requires
        d < 10,
    ensures
        final(s)@ == old(s)@ + seq![spec_digit_char(d as nat)],
{
    match d {
        0u8 => {
            proof {
                reveal_strlit("0");
            }
            s.append("0");
        },
        1u8 => {
            proof {
                reveal_strlit("1");
            }
            s.append("1");
        },
        2u8 => {
            proof {
                reveal_strlit("2");
            }
            s.append("2");
        },
        3u8 => {
            proof {
                reveal_strlit("3");
            }
            s.append("3");
        },
        4u8 => {
            proof {
                reveal_strlit("4");
            }
            s.append("4");
        },
        5u8 => {
            proof {
                reveal_strlit("5");
            }
            s.append("5");
        },
        6u8 => {
            proof {
                reveal_strlit("6");
            }
            s.append("6");
        },
        7u8 => {
            proof {
                reveal_strlit("7");
            }
            s.append("7");
        },
        8u8 => {
            proof {
                reveal_strlit("8");
            }
            s.append("8");
        },
        _ => {
            proof {
                reveal_strlit("9");
            }
            s.append("9");
        },
    }
    proof {
        assert(s@ =~= old(s)@ + seq![spec_digit_char(d as nat)]);
    }
}

/// Appends one lower-case hexadecimal digit character.
fn append_hex_digit(s: &mut String, d: u8)
    requires
        d < 16,
    ensures
        final(s)@ == old(s)@ + seq![spec_hex_char(d as nat)],
{
    if d < 10 {
        append_digit(s, d);
    } else {
        match d {
            10u8 => {
                proof {
                    reveal_strlit("a");
                }
                s.append("a");
            },
            11u8 => {
                proof {
                    reveal_strlit("b");
                }
                s.append("b");
            },
            12u8 => {
                proof {
                    reveal_strlit("c");
                }
                s.append("c");
            },
            13u8 => {
                proof {
                    reveal_strlit("d");
                }
                s.append("d");
            },
            14u8 => {
                proof {
                    reveal_strlit("e");
                }
                s.append("e");
            },
            _ => {
                proof {
                    reveal_strlit("f");
                }
                s.append("f");
            },
        }
        proof {
            assert(s@ =~= old(s)@ + seq![spec_hex_char(d as nat)]);
        }
    }
}

/// Appends the decimal form of `v`, most significant digit first.
pub fn append_dec_u32(s: &mut String, v: u32)
    ensures
        final(s)@ == old(s)@ + spec_dec(v as nat),
    decreases v,
{
    if v < 10 {
        append_digit(s, v as u8);
    } else {
        append_dec_u32(s, v / 10);
        append_digit(s, (v % 10) as u8);
        proof {
            assert(s@ =~= old(s)@ + spec_dec(v as nat));
        }
    }
}

/// Appends `0x` and exactly four lower-case hexadecimal digits of `v`.
pub fn append_hex4(s: &mut String, v: u16)
    ensures
        final(s)@ == old(s)@ + spec_hex4(v as nat),
{
    proof {
        reveal_strlit("0x");
    }
    s.append("0x");
    append_hex_digit(s, ((v / 4096) % 16) as u8);
    append_hex_digit(s, ((v / 256) % 16) as u8);
    append_hex_digit(s, ((v / 16) % 16) as u8);
    append_hex_digit(s, (v % 16) as u8);
    proof {
        assert("0x"@ =~= seq!['0', 'x']);
        assert(s@ =~= old(s)@ + spec_hex4(v as nat));
    }
}

/// The display name of a packet type.
pub open spec fn spec_type_name(ty: PacketType) -> Seq<char> {
    match ty {
        PacketType::Request => "Request"@,
        PacketType::Response => "Response"@,
        PacketType::Notify => "Notify"@,
        PacketType::Error => "Error"@,
    }
}

/// The sequence part of the rendering: the error code beside the
/// sequence number for error packets, the bare sequence number for the
/// other sequenced types, nothing for notifies.
pub open spec fn spec_seq_part(h: PacketHeader) -> Seq<char> {
    if h.ty is Error {
        " ("@ + spec_dec(h.seq as nat) + ", E?"@ + spec_hex4(h.error as nat) + ")"@
    } else if !(h.ty is Notify) {
        " ("@ + spec_dec(h.seq as nat) + ")"@
    } else {
        Seq::<char>::empty()
    }
}

/// The full rendering of a packet whose content the codec renders as
/// `content_text`: type and sequence information, the resolved
/// component and command names with the raw path, the raw option flags,
/// and the content dump.
pub open spec fn spec_render(
    h: PacketHeader,
    component_name: Seq<char>,
    command_name: Seq<char>,
    content_text: Seq<char>,
) -> Seq<char> {
    spec_type_name(h.ty) + spec_seq_part(h) + ": "@ + component_name + "->"@ + command_name + " ("@
        + spec_hex4(h.component as nat) + "->"@ + spec_hex4(h.command as nat) + ")\nOptions: 0x"@
        + seq![spec_hex_char(h.options.bits as nat)] + "\nContent: "@ + content_text
}

/// Wrapper over a packet to render it for debug logging, with the
/// component and command names already resolved by the caller (or the
/// literal `Unknown` placeholder where no table knows them).
pub struct PacketDebug<'a> {
    /// Reference to the packet itself.
    pub packet: &'a Packet,
}

impl<'a> PacketDebug<'a> {
    /// Renders the packet as human-readable text: its type with the
    /// sequence number (or error code), the given component and command
    /// names beside the raw path, the raw option flags, and the content
    /// dump. The caller supplies `content_text`, the best-effort
    /// rendering of the content through the external structured-value
    /// codec; that codec runs outside the library, where a malformed
    /// buffer can be guarded against.
    pub fn render(&self, component_name: &str, command_name: &str, content_text: &str) -> (r:
        String)
        requires
            self.packet.header.wf(),
        ensures
            r@ == spec_render(
                self.packet.header,
                component_name@,
                command_name@,
                content_text@,
            ),
    {
        let h = &self.packet.header;
        let mut out = String::new();
        match h.ty {
            PacketType::Request => {
                proof {
                    reveal_strlit("Request");
                }
                out.append("Request");
            },
            PacketType::Response => {
                proof {
                    reveal_strlit("Response");
                }
                out.append("Response");
            },
            PacketType::Notify => {
                proof {
                    reveal_strlit("Notify");
                }
                out.append("Notify");
            },
            PacketType::Error => {
                proof {
                    reveal_strlit("Error");
                }
                out.append("Error");
            },
        }
        match h.ty {
            PacketType::Notify => {},
            PacketType::Error => {
                out.append(" (");
                append_dec_u32(&mut out, h.seq as u32);
                out.append(", E?");
                append_hex4(&mut out, h.error);
                out.append(")");
            },
            _ => {
                out.append(" (");
                append_dec_u32(&mut out, h.seq as u32);
                out.append(")");
            },
        }
        out.append(": ");
        out.append(component_name);
        out.append("->");
        out.append(command_name);
        out.append(" (");
        append_hex4(&mut out, h.component);
        out.append("->");
        append_hex4(&mut out, h.command);
        out.append(")\nOptions: 0x");
        append_hex_digit(&mut out, h.options.bits);
        out.append("\nContent: ");
        out.append(content_text);
        proof {
            assert(out@ =~= spec_render(
                self.packet.header,
                component_name@,
                command_name@,
                content_text@,
            ));
        }
        out
    }
}

} // verus!
