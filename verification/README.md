# weather_dashboard

The logic of a desktop weather dashboard, verified with Verus.

- `src/favorites.rs`: the list of starred cities and its laws (no city is
  starred twice, unstarring undoes starring, ...).
- `src/app.rs`: the screens of the dashboard as a state machine: each user
  action or finished search gives the next screen and what the shell must do
  (fetch a city, save the favorites).
- `src/api.rs`: the Open-Meteo request addresses, and how the look-up,
  forecast and air quality replies become a report or an error message.
- `src/ui.rs`: the icon of a weather code and the clock part of a timestamp.
- `app/`: the egui window, the HTTP requests and JSON decoding, the
  `favorites.json` file, and the colour scales of the gauges, which work on
  floating-point readings.
