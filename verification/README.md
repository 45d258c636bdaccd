# caps_hangul

Caps Lock as a Korean/English switch on Windows: a short press switches the input
language, a long press (held for the threshold, 400 ms by default) toggles Caps Lock, and a small
overlay shows the result ("한" / "A", "CAPS ON" / "CAPS OFF").

Layout:

- `src/` — the verified library (Verus). The keyboard hook's state machine and the
  long-press timer (`hook`, `overlay`, `state`, `config`), UTF-16 text for Win32
  (`wide`), the release-check parsing (`update`), the IME reader's routing and
  shared record (`ime`), the helper's command line (`reader`), synthetic key
  records (`input`), the tray and dialog decisions (`tray`) and the
  single-instance rule (`single_instance`).
- `app/` — the Windows program around it: hook installation, windows, timers,
  WinHTTP, shared memory, DLL injection and the message loop. The same executable
  acts as the reader helper when started as `caps-hangul-reader[-<arch>]`; the
  reader DLL itself (a COM client injected into other processes) is not built here.
- `tests/` — tests of the library.
