#!/usr/bin/env python3
"""Compares the integer test used by `contrast_text` with the same test in
single precision.

`contrast_text` picks dark text when

    (0.2126 * r + 0.7152 * g + 0.0722 * b) / 255 > 0.55

evaluated with `f32` arithmetic. The library states and proves the rule as

    2126 * r + 7152 * g + 722 * b > 1402500

which is the exact real-number form of the same comparison. The two can
only disagree where the weighted sum lies within rounding distance of the
threshold, so this script evaluates every colour whose weighted sum is
within 3000 of 1402500 (far wider than any single-precision rounding
error at these magnitudes) with each operation rounded to `f32`, and
reports any colour on which the two tests differ.
"""

import struct


def f32(x: float) -> float:
    return struct.unpack("f", struct.pack("f", x))[0]


W_R, W_G, W_B = f32(0.2126), f32(0.7152), f32(0.0722)
LIMIT, DIVISOR = f32(0.55), f32(255.0)


def float_rule(r: int, g: int, b: int) -> bool:
    s = f32(f32(W_R * r) + f32(W_G * g))
    s = f32(s + f32(W_B * b))
    return f32(s / DIVISOR) > LIMIT


def integer_rule(r: int, g: int, b: int) -> bool:
    return 2126 * r + 7152 * g + 722 * b > 1402500


def main() -> None:
    checked = 0
    mismatches = []
    for r in range(256):
        for g in range(256):
            base = 2126 * r + 7152 * g
            lo = max(0, -(-(1402500 - 3000 - base) // 722))
            hi = min(255, (1402500 + 3000 - base) // 722)
            for b in range(lo, hi + 1):
                checked += 1
                if float_rule(r, g, b) != integer_rule(r, g, b):
                    mismatches.append((r, g, b))
    print(f"colours near the threshold: {checked}, disagreements: {len(mismatches)}")
    for m in mismatches[:20]:
        print("  ", m)


if __name__ == "__main__":
    main()
