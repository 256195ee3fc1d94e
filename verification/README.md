# radnelac

Calendrical calculations, verified with Verus: a day given in one timekeeping system is
converted to the same day in another, and dates are written out in preset formats.

Every calendar converts through a whole-day count (day 1 is January 1, 1 of the proleptic
Gregorian calendar). Each calendar's contracts are stated over mathematical definitions of
its day count, and the laws proved next to them say that converting a day count to a date
and back, or a date to a day count and back, gives what one started with.

- `src/common`: integer arithmetic (floor-style remainder, adjusted remainder, gcd), the
  year-month-day and year-day-of-year records, and the error type.
- `src/day_count`: the day count traits (`FromFixed`, `ToFixed`, `Epoch`) and the laws that
  conversions keep the day.
- `src/day_cycle`: cycles of named days: the seven-day week and the 42-day Akan cycle.
- `src/calendar`: the calendars (Gregorian, Julian, Holocene, ISO week date, Coptic,
  Ethiopic, Egyptian, Armenian, Cotsworth, Positivist, Symmetry, Tranquility, French
  Revolutionary, Roman naming, Olympiads).
- `src/display`: names in English and French, numbers and texts with width, padding,
  alignment, case and sign, and the preset formats.
- `app`: the parts that work on floating point numbers (fractional day counts, times of
  day, calendar moments) and the standard `Display` of dates.
